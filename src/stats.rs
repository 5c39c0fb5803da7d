use vstd::prelude::*;

verus! {

/// The decimal digit `d`, `0 <= d < 10`.
pub open spec fn digit_char(d: int) -> char {
    ('0' as u32 + d) as char
}

pub open spec fn is_digit(c: char) -> bool {
    '0' <= c && c <= '9'
}

/// The decimal numeral of `n`, without leading zeros.
pub open spec fn decimal(n: nat) -> Seq<char>
    decreases n,
{
    if n < 10 {
        seq![digit_char(n as int)]
    } else {
        decimal(n / 10).push(digit_char((n % 10) as int))
    }
}

/// The value of a string of decimal digits; the empty string is 0.
pub open spec fn digits_value(t: Seq<char>) -> nat
    decreases t.len(),
{
    if t.len() == 0 {
        0
    } else {
        digits_value(t.drop_last()) * 10 + (t.last() as u32 - '0' as u32) as nat
    }
}

/// `t` holds digits only, and their value fits in a `u32`.
pub open spec fn token_ok(t: Seq<char>) -> bool {
    (forall|i: int| 0 <= i < t.len() ==> is_digit(#[trigger] t[i])) && digits_value(t) <= u32::MAX
}

/// `t` is the numeral of a `u32`.
pub open spec fn valid_number(t: Seq<char>) -> bool {
    t.len() > 0 && token_ok(t)
}

/// The pieces of `s` between single spaces; an empty string is one empty piece.
pub open spec fn split_spaces(s: Seq<char>) -> Seq<Seq<char>>
    decreases s.len(),
{
    if s.len() == 0 {
        seq![Seq::empty()]
    } else {
        let t = split_spaces(s.drop_last());
        if s.last() == ' ' {
            t.push(Seq::empty())
        } else {
            t.update(t.len() - 1, t.last().push(s.last()))
        }
    }
}

/// The stats line of `wins`, hint charges and handicap charges.
pub open spec fn stats_text(wins: nat, hints: nat, handicaps: nat) -> Seq<char> {
    decimal(wins) + seq![' '] + decimal(hints) + seq![' '] + decimal(handicaps)
}

/// What a stats line holds: at least three pieces, each a `u32` numeral; the first three
/// are wins, hint charges and handicap charges.
pub open spec fn parse_stats_spec(s: Seq<char>) -> Option<(u32, u32, u32)> {
    let t = split_spaces(s);
    if t.len() >= 3 && forall|k: int| 0 <= k < t.len() ==> valid_number(#[trigger] t[k]) {
        Some((digits_value(t[0]) as u32, digits_value(t[1]) as u32, digits_value(t[2]) as u32))
    } else {
        None
    }
}

proof fn lemma_split_len(s: Seq<char>)
    ensures
        split_spaces(s).len() >= 1,
    decreases s.len(),
{
    if s.len() > 0 {
        lemma_split_len(s.drop_last());
    }
}

/// Appending text without spaces extends the last piece.
proof fn lemma_split_no_space(x: Seq<char>, b: Seq<char>)
    requires
        forall|i: int| 0 <= i < b.len() ==> b[i] != ' ',
    ensures
        split_spaces(x + b) == split_spaces(x).update(
            split_spaces(x).len() - 1,
            split_spaces(x).last() + b,
        ),
    decreases b.len(),
{
    lemma_split_len(x);
    if b.len() == 0 {
        assert(x + b =~= x);
        assert(split_spaces(x).last() + b =~= split_spaces(x).last());
        assert(split_spaces(x).update(split_spaces(x).len() - 1, split_spaces(x).last())
            =~= split_spaces(x));
    } else {
        let b0 = b.drop_last();
        lemma_split_no_space(x, b0);
        assert((x + b).drop_last() =~= x + b0);
        assert((x + b).last() == b.last());
        assert(split_spaces(x).last() + b =~= (split_spaces(x).last() + b0).push(b.last()));
        lemma_split_len(x + b0);
        assert(split_spaces(x + b) =~= split_spaces(x).update(
            split_spaces(x).len() - 1,
            split_spaces(x).last() + b,
        ));
    }
}

proof fn lemma_decimal_facts(n: nat)
    ensures
        decimal(n).len() > 0,
        forall|i: int| 0 <= i < decimal(n).len() ==> is_digit(#[trigger] decimal(n)[i]),
        digits_value(decimal(n)) == n,
    decreases n,
{
    let d: int = (n % 10) as int;
    assert(digit_char(d) as u32 == '0' as u32 + d);
    if n >= 10 {
        lemma_decimal_facts(n / 10);
        assert(decimal(n).drop_last() =~= decimal(n / 10));
        assert(digits_value(decimal(n)) == digits_value(decimal(n / 10)) * 10 + d);
    } else {
        assert(decimal(n).drop_last() =~= Seq::<char>::empty());
        assert(digits_value(decimal(n)) == digits_value(Seq::<char>::empty()) * 10 + d);
    }
}

/// Writing a stats line and reading it back gives the same three numbers.
pub proof fn lemma_stats_round_trip(wins: u32, hints: u32, handicaps: u32)
    ensures
        parse_stats_spec(stats_text(wins as nat, hints as nat, handicaps as nat)) == Some(
            (wins, hints, handicaps),
        ),
{
    let a = decimal(wins as nat);
    let b = decimal(hints as nat);
    let c = decimal(handicaps as nat);
    lemma_decimal_facts(wins as nat);
    lemma_decimal_facts(hints as nat);
    lemma_decimal_facts(handicaps as nat);
    let e = Seq::<char>::empty();
    lemma_split_no_space(e, a);
    assert(e + a =~= a);
    assert(split_spaces(e) =~= seq![e]);
    assert(split_spaces(a) =~= seq![a]);
    let a1 = a + seq![' '];
    assert(a1.drop_last() =~= a);
    assert(split_spaces(a1) =~= seq![a, e]);
    lemma_split_no_space(a1, b);
    let ab = a1 + b;
    assert(split_spaces(ab) =~= seq![a, e + b]);
    assert(e + b =~= b);
    let ab1 = ab + seq![' '];
    assert(ab1.drop_last() =~= ab);
    assert(split_spaces(ab1) =~= seq![a, b, e]);
    lemma_split_no_space(ab1, c);
    assert(e + c =~= c);
    let full = stats_text(wins as nat, hints as nat, handicaps as nat);
    assert(full =~= ab1 + c);
    assert(split_spaces(full) =~= seq![a, b, c]);
}


proof fn lemma_token_push(t: Seq<char>, c: char)
    requires
        !token_ok(t),
    ensures
        !token_ok(t.push(c)),
{
    let t2 = t.push(c);
    assert(t2.drop_last() =~= t);
    if forall|i: int| 0 <= i < t.len() ==> is_digit(#[trigger] t[i]) {
        if is_digit(c) {
            assert(digits_value(t2) >= digits_value(t));
        } else {
            assert(!is_digit(t2[t.len() as int]));
        }
    } else {
        let i = choose|i: int| 0 <= i < t.len() && !is_digit(#[trigger] t[i]);
        assert(t2[i] == t[i]);
    }
}

fn digit_str(d: u32) -> (s: &'static str)
    requires
        d < 10,
    ensures
        s@ == seq![digit_char(d as int)],
{
    let s = match d {
        0 => "0",
        1 => "1",
        2 => "2",
        3 => "3",
        4 => "4",
        5 => "5",
        6 => "6",
        7 => "7",
        8 => "8",
        _ => "9",
    };
    proof {
        reveal_strlit("0");
        reveal_strlit("1");
        reveal_strlit("2");
        reveal_strlit("3");
        reveal_strlit("4");
        reveal_strlit("5");
        reveal_strlit("6");
        reveal_strlit("7");
        reveal_strlit("8");
        reveal_strlit("9");
        assert(s@ =~= seq![digit_char(d as int)]);
    }
    s
}

/// The decimal numeral of `n`.
pub fn format_decimal(n: u32) -> (r: String)
    ensures
        r@ == decimal(n as nat),
    decreases n,
{
    if n < 10 {
        String::from_str(digit_str(n))
    } else {
        let mut r = format_decimal(n / 10);
        r.append(digit_str(n % 10));
        r
    }
}

/// The stats line: wins, hint charges and handicap charges, separated by single spaces.
pub fn format_stats(wins: u32, hints: u32, handicaps: u32) -> (r: String)
    ensures
        r@ == stats_text(wins as nat, hints as nat, handicaps as nat),
{
    proof {
        reveal_strlit(" ");
    }
    let mut r = format_decimal(wins);
    r.append(" ");
    r.append(format_decimal(hints).as_str());
    r.append(" ");
    r.append(format_decimal(handicaps).as_str());
    assert(r@ =~= stats_text(wins as nat, hints as nat, handicaps as nat));
    r
}

/// Reads a stats line: `None` unless it holds at least three space-separated `u32`
/// numerals and nothing else; otherwise the first three.
pub fn parse_stats(line: &str) -> (r: Option<(u32, u32, u32)>)
    ensures
        r == parse_stats_spec(line@),
{
    let n: usize = line.unicode_len();
    let mut vals: Vec<u32> = Vec::new();
    let mut cur: u64 = 0;
    let mut cur_len: usize = 0;
    let mut bad = false;
    let mut i: usize = 0;
    proof {
        assert(line@.subrange(0, 0) =~= Seq::<char>::empty());
    }
    while i < n
        invariant
            n == line@.len(),
            i <= n,
            ({
                let toks = split_spaces(line@.subrange(0, i as int));
                &&& toks.len() >= 1
                &&& bad == ((exists|k: int| 0 <= k < toks.len() - 1 && !valid_number(#[trigger] toks[k]))
                    || !token_ok(toks.last()))
                &&& !bad ==> {
                    &&& vals@.len() == toks.len() - 1
                    &&& forall|k: int| 0 <= k < vals@.len() ==> #[trigger] vals@[k] == digits_value(toks[k])
                    &&& cur == digits_value(toks.last())
                    &&& cur_len == toks.last().len()
                    &&& cur_len <= i
                }
            }),
        decreases n - i,
    {
        let ghost pre = line@.subrange(0, i as int);
        let ghost toks = split_spaces(pre);
        let c = line.get_char(i);
        let ghost next = line@.subrange(0, i + 1);
        proof {
            assert(next.drop_last() =~= pre);
            assert(next.last() == c);
        }
        if c == ' ' {
            proof {
                assert(split_spaces(next) == toks.push(Seq::empty()));
                assert(token_ok(Seq::<char>::empty()));
            }
            if !bad {
                if cur_len == 0 {
                    bad = true;
                    proof {
                        let t2 = toks.push(Seq::empty());
                        assert(!valid_number(t2[toks.len() - 1]));
                    }
                } else {
                    vals.push(cur as u32);
                    cur = 0;
                    cur_len = 0;
                }
            } else {
                proof {
                    let t2 = toks.push(Seq::empty());
                    if !token_ok(toks.last()) {
                        assert(!valid_number(t2[toks.len() - 1]));
                    } else {
                        let k = choose|k: int| 0 <= k < toks.len() - 1 && !valid_number(#[trigger] toks[k]);
                        assert(!valid_number(t2[k]));
                    }
                }
            }
        } else {
            let ghost t2 = toks.update(toks.len() - 1, toks.last().push(c));
            proof {
                assert(split_spaces(next) == t2);
                assert(t2.last() == toks.last().push(c));
                assert(toks.last().push(c).drop_last() =~= toks.last());
            }
            if bad {
                proof {
                    if !token_ok(toks.last()) {
                        lemma_token_push(toks.last(), c);
                    } else {
                        let k = choose|k: int| 0 <= k < toks.len() - 1 && !valid_number(#[trigger] toks[k]);
                        assert(!valid_number(t2[k]));
                    }
                }
            } else if '0' <= c && c <= '9' {
                let d: u64 = (c as u32 - '0' as u32) as u64;
                let v: u64 = cur * 10 + d;
                proof {
                    assert(digits_value(t2.last()) == cur * 10 + d);
                }
                if v > 0xffff_ffff {
                    bad = true;
                } else {
                    cur = v;
                    cur_len = cur_len + 1;
                    proof {
                        assert forall|j: int| 0 <= j < t2.last().len() implies is_digit(#[trigger] t2.last()[j]) by {
                            if j < toks.last().len() {
                                assert(t2.last()[j] == toks.last()[j]);
                            }
                        }
                    }
                }
            } else {
                bad = true;
                proof {
                    assert(!is_digit(t2.last()[toks.last().len() as int]));
                }
            }
        }
        i = i + 1;
    }
    proof {
        assert(line@.subrange(0, n as int) =~= line@);
    }
    if !bad && cur_len > 0 && vals.len() >= 2 {
        let third = if vals.len() == 2 {
            cur as u32
        } else {
            vals[2]
        };
        Some((vals[0], vals[1], third))
    } else {
        None
    }
}

} // verus!
