use vstd::prelude::*;

verus! {

/// Which face of a card is visible.
#[derive(Debug, Clone, Copy, PartialEq, Eq, Structural)]
pub enum CardFlipState {
    Front,
    Back,
}

/// Whether a card is still travelling to its slot on the table.
#[derive(Debug, Clone, Copy, PartialEq, Eq, Structural)]
pub enum CardMoveState {
    Moving,
    Stopped,
}

/// Error for a card whose name does not start with a known rank.
#[derive(Debug, Clone)]
pub struct CardNameError {
    pub details: String,
}

impl CardNameError {
    pub fn new(msg: &str) -> (r: Self)
        ensures
            r.details@ == msg@,
    {
        CardNameError { details: String::from_str(msg) }
    }

    /// The message carried by the error.
    pub fn description(&self) -> (r: &str)
        ensures
            r@ == self.details@,
    {
        self.details.as_str()
    }
}

/// Points of the rank whose name starts with `c`, if `c` starts a rank name.
pub open spec fn rank_points(c: char) -> Option<u32> {
    if '2' <= c && c <= '9' {
        Some((c as u32 - '0' as u32) as u32)
    } else if c == '1' || c == 'j' || c == 'q' || c == 'k' {
        Some(10)
    } else if c == 'a' {
        Some(11)
    } else {
        None
    }
}

/// Points of the card named `name`: decided by its first character.
pub open spec fn name_points(name: Seq<char>) -> Option<u32> {
    if name.len() == 0 {
        None
    } else {
        rank_points(name[0])
    }
}

/// The card named `name` is an ace.
pub open spec fn name_is_ace(name: Seq<char>) -> bool {
    name.len() > 0 && name[0] == 'a'
}


/// Microseconds that a flip animation runs in each direction.
pub const FLIP_DURATION: u64 = 300_000;

/// Largest duration or time step that an animation accepts, in microseconds.
pub const MAX_TIME_STEP: u64 = 0xffff_ffff;

/// A point on the table, in sub-pixel units (75 units to a pixel).
#[derive(Debug, Clone, Copy, PartialEq, Eq, Structural)]
pub struct Point {
    pub x: i64,
    pub y: i64,
}

/// A displacement per frame, in the same units as `Point`.
#[derive(Debug, Clone, Copy, PartialEq, Eq, Structural)]
pub struct Vector {
    pub x: i64,
    pub y: i64,
}

/// The phases of a flip animation.
#[derive(Debug, Clone, Copy, PartialEq, Eq, Structural)]
pub enum FlipAnimationState {
    /// The animation will play
    Started,
    /// The animation is at the point where the card should be flipped
    BeforeFlip,
    /// The card has been flipped now
    AfterFlip,
    /// The animation is not playing
    Stopped,
}

/// A card turning over: the card narrows to nothing, changes face, and widens back.
#[derive(Debug, Clone, Copy)]
pub struct FlipAnimation {
    pub state: FlipAnimationState,
    /// Microseconds to animate in one direction.
    pub duration: u64,
    /// How far the animation has run: `0 <= progress <= duration`.
    pub progress: u64,
    /// `1` while narrowing, `-1` while widening.
    pub direction: i64,
}

/// The result of one step of the flip animation, as (progress, direction, state).
pub open spec fn flip_step(a: FlipAnimation, time_delta: int) -> (int, int, FlipAnimationState) {
    if a.state == FlipAnimationState::Stopped {
        (a.progress as int, a.direction as int, a.state)
    } else {
        let p = a.progress + a.direction * time_delta;
        if p >= a.duration {
            (a.duration as int, -1, FlipAnimationState::BeforeFlip)
        } else if p <= 0 {
            (0, 1, FlipAnimationState::Stopped)
        } else {
            (p, a.direction as int, a.state)
        }
    }
}

impl FlipAnimation {
    pub open spec fn wf(&self) -> bool {
        &&& 0 < self.duration <= MAX_TIME_STEP
        &&& self.progress <= self.duration
        &&& self.direction == 1 || self.direction == -1
    }

    pub fn new(duration: u64) -> (r: Self)
        requires
            0 < duration <= MAX_TIME_STEP,
        ensures
            r.wf(),
            r.state == FlipAnimationState::Stopped,
            r.duration == duration,
            r.progress == 0,
            r.direction == 1,
    {
        FlipAnimation { state: FlipAnimationState::Stopped, duration, progress: 0, direction: 1 }
    }

    /// Horizontal scale of the card in thousandths: `1000 * (1 - progress / duration)`,
    /// rounded down.
    /// Full width is 1000, no width is 0.
    pub fn scale_x_milli(&self) -> (r: u64)
        requires
            self.wf(),
        ensures
            r as int == 1000 * (self.duration - self.progress) / (self.duration as int),
    {
        1000 * (self.duration - self.progress) / self.duration
    }

    /// Advances the animation by `time_delta` microseconds; a stopped animation stays as it is.
    pub fn update(&mut self, time_delta: u64)
        requires
            old(self).wf(),
            time_delta <= MAX_TIME_STEP,
        ensures
            final(self).wf(),
            final(self).duration == old(self).duration,
            (final(self).progress as int, final(self).direction as int, final(self).state)
                == flip_step(*old(self), time_delta as int),
    {
        if self.state == FlipAnimationState::Stopped {
            return;
        }
        if self.direction == 1 {
            assert(self.direction as int * time_delta as int == time_delta as int);
            let p = self.progress + time_delta;
            if p >= self.duration {
                self.progress = self.duration;
                self.direction = -1;
                self.state = FlipAnimationState::BeforeFlip;
            } else if p == 0 {
                self.progress = 0;
                self.direction = 1;
                self.state = FlipAnimationState::Stopped;
            } else {
                self.progress = p;
            }
        } else {
            assert(self.direction as int * time_delta as int == -(time_delta as int)) by (nonlinear_arith)
                requires
                    self.direction == -1,
            ;
            if self.progress >= self.duration + time_delta {
                self.progress = self.duration;
                self.direction = -1;
                self.state = FlipAnimationState::BeforeFlip;
            } else if self.progress <= time_delta {
                self.progress = 0;
                self.direction = 1;
                self.state = FlipAnimationState::Stopped;
            } else {
                self.progress = self.progress - time_delta;
            }
        }
    }
}


/// Bound on the coordinates that cards and their moves are given, in sub-pixel units.
pub const COORD_LIMIT: i64 = 0x100_0000_0000;

/// `v` brought into `[lo, hi]`: `lo` unless `v > lo`, and at most `hi` otherwise.
pub open spec fn clamp_spec(v: int, lo: int, hi: int) -> int {
    if v > lo {
        if v < hi {
            v
        } else {
            hi
        }
    } else {
        lo
    }
}

pub fn clamp(v: i64, lo: i64, hi: i64) -> (r: i64)
    ensures
        r == clamp_spec(v as int, lo as int, hi as int),
{
    if v > lo {
        if v < hi {
            v
        } else {
            hi
        }
    } else {
        lo
    }
}

pub open spec fn coord_in_range(v: int) -> bool {
    -COORD_LIMIT <= v <= COORD_LIMIT
}

pub open spec fn point_in_range(p: Point) -> bool {
    coord_in_range(p.x as int) && coord_in_range(p.y as int)
}

pub open spec fn vector_in_range(v: Vector) -> bool {
    coord_in_range(v.x as int) && coord_in_range(v.y as int)
}

/// Where a card at `pos` ends after one step: moving cards advance by `t`, each axis
/// clamped into `[0, dest]`; stopped cards stay.
pub open spec fn moved_position(moving: bool, pos: Point, t: Vector, dest: Point) -> Point {
    if moving {
        Point {
            x: clamp_spec(pos.x + t.x, 0, dest.x as int) as i64,
            y: clamp_spec(pos.y + t.y, 0, dest.y as int) as i64,
        }
    } else {
        pos
    }
}

/// A playing card on the table.
#[derive(Debug, Clone)]
pub struct Card {
    pub flip_state: CardFlipState,
    pub move_state: CardMoveState,
    pub name: String,
    pub position: Point,
    pub animation: FlipAnimation,
    /// Set once the flip animation has been started for this card.
    pub flipped: bool,
}

/// A card as it comes out of the pack: face down, about to move, never flipped.
pub open spec fn is_fresh_card(c: Card, name: Seq<char>) -> bool {
    &&& c.name@ == name
    &&& c.flip_state == CardFlipState::Back
    &&& c.move_state == CardMoveState::Moving
    &&& c.position == Point { x: 0, y: 0 }
    &&& c.animation.state == FlipAnimationState::Stopped
    &&& c.animation.duration == FLIP_DURATION
    &&& c.animation.progress == 0
    &&& c.animation.direction == 1
    &&& !c.flipped
}

/// The card after one frame of `time_delta` microseconds, moved by `t` towards `dest`.
pub open spec fn card_step(c: Card, time_delta: int, t: Vector, dest: Point) -> Card {
    let pos = moved_position(c.move_state == CardMoveState::Moving, c.position, t, dest);
    let step = flip_step(c.animation, time_delta);
    let arrived = pos == dest;
    let state1 = if arrived && !c.flipped {
        FlipAnimationState::Started
    } else {
        step.2
    };
    let turns = arrived && state1 == FlipAnimationState::BeforeFlip;
    Card {
        flip_state: if turns {
            CardFlipState::Front
        } else {
            c.flip_state
        },
        move_state: if arrived {
            CardMoveState::Stopped
        } else {
            c.move_state
        },
        name: c.name,
        position: pos,
        animation: FlipAnimation {
            state: if turns {
                FlipAnimationState::AfterFlip
            } else {
                state1
            },
            duration: c.animation.duration,
            progress: step.0 as u64,
            direction: step.1 as i64,
        },
        flipped: c.flipped || arrived,
    }
}

impl Card {
    pub open spec fn wf(&self) -> bool {
        self.animation.wf() && point_in_range(self.position)
    }

    pub fn new(card_name: &str) -> (r: Self)
        ensures
            r.wf(),
            is_fresh_card(r, card_name@),
    {
        Card {
            flip_state: CardFlipState::Back,
            move_state: CardMoveState::Moving,
            name: String::from_str(card_name),
            position: Point { x: 0, y: 0 },
            animation: FlipAnimation::new(FLIP_DURATION),
            flipped: false,
        }
    }

    /// One frame: runs the flip animation, moves the card towards `dest_point`, and on
    /// arrival stops it and starts its flip, once; a flip that reached its middle shows
    /// the front.
    pub fn update(&mut self, time_delta: u64, translation: Vector, dest_point: Point)
        requires
            old(self).wf(),
            time_delta <= MAX_TIME_STEP,
            vector_in_range(translation),
            point_in_range(dest_point),
        ensures
            final(self).wf(),
            *final(self) == card_step(*old(self), time_delta as int, translation, dest_point),
    {
        self.animation.update(time_delta);

        if self.move_state == CardMoveState::Moving {
            let new_pos_x: i64 = self.position.x + translation.x;
            let new_pos_y: i64 = self.position.y + translation.y;
            self.position.x = clamp(new_pos_x, 0, dest_point.x);
            self.position.y = clamp(new_pos_y, 0, dest_point.y);
        }
        if self.position == dest_point {
            self.move_state = CardMoveState::Stopped;

            if !self.flipped {
                self.animation.state = FlipAnimationState::Started;
                self.flipped = true;
            }
            if self.animation.state == FlipAnimationState::BeforeFlip {
                self.flip_state = CardFlipState::Front;
                self.animation.state = FlipAnimationState::AfterFlip;
            }
        }
    }

    /// Points of the card: 2 to 9 at face value, 10 and the faces 10, the ace 11.
    pub fn get_points(&self) -> (r: Result<u32, CardNameError>)
        ensures
            match r {
                Ok(p) => name_points(self.name@) == Some(p),
                Err(e) => name_points(self.name@).is_none() && e.details@ == "Invalid card name!"@,
            },
    {
        let s = self.name.as_str();
        if s.unicode_len() == 0 {
            return Err(CardNameError::new("Invalid card name!"));
        }
        let c = s.get_char(0);
        match c {
            '2' => Ok(2),
            '3' => Ok(3),
            '4' => Ok(4),
            '5' => Ok(5),
            '6' => Ok(6),
            '7' => Ok(7),
            '8' => Ok(8),
            '9' => Ok(9),
            '1' => Ok(10),
            'j' => Ok(10),
            'q' => Ok(10),
            'k' => Ok(10),
            'a' => Ok(11),
            _ => Err(CardNameError::new("Invalid card name!")),
        }
    }

    pub fn is_an_ace(&self) -> (r: bool)
        ensures
            r == name_is_ace(self.name@),
    {
        let s = self.name.as_str();
        s.unicode_len() > 0 && s.get_char(0) == 'a'
    }
}


/// Number of cards in a full pack.
pub const DECK_SIZE: usize = 52;

/// Name of the rank at `r` in pack order: ace, 2 to 10, jack, queen, king.
pub open spec fn rank_name(r: int) -> Seq<char> {
    if r == 0 {
        seq!['a', 'c', 'e']
    } else if 1 <= r <= 8 {
        seq![('1' as u32 + r) as char]
    } else if r == 9 {
        seq!['1', '0']
    } else if r == 10 {
        seq!['j', 'a', 'c', 'k']
    } else if r == 11 {
        seq!['q', 'u', 'e', 'e', 'n']
    } else {
        seq!['k', 'i', 'n', 'g']
    }
}

/// Name of the suit at `s` in pack order: clubs, diamonds, hearts, spades.
pub open spec fn suit_name(s: int) -> Seq<char> {
    if s == 0 {
        seq!['c', 'l', 'u', 'b', 's']
    } else if s == 1 {
        seq!['d', 'i', 'a', 'm', 'o', 'n', 'd', 's']
    } else if s == 2 {
        seq!['h', 'e', 'a', 'r', 't', 's']
    } else {
        seq!['s', 'p', 'a', 'd', 'e', 's']
    }
}

/// Name of the card at `id` in pack order, `"<rank>_of_<suit>"`; four suits to a rank.
pub open spec fn card_name(id: int) -> Seq<char> {
    rank_name(id / 4) + seq!['_', 'o', 'f', '_'] + suit_name(id % 4)
}

/// Different places in the pack hold differently named cards.
pub proof fn lemma_card_name_injective(i: int, j: int)
    requires
        0 <= i < DECK_SIZE,
        0 <= j < DECK_SIZE,
        card_name(i) == card_name(j),
    ensures
        i == j,
{
    let ri = i / 4;
    let rj = j / 4;
    assert(card_name(i)[0] == rank_name(ri)[0]);
    assert(card_name(j)[0] == rank_name(rj)[0]);
    assert(ri == rj);
    let k = rank_name(ri).len() as int + 4;
    assert(card_name(i)[k] == suit_name(i % 4)[0]);
    assert(card_name(j)[k] == suit_name(j % 4)[0]);
    assert(i % 4 == j % 4);
}

fn rank_str(r: usize) -> (s: &'static str)
    requires
        r < 13,
    ensures
        s@ == rank_name(r as int),
{
    let s = match r {
        0 => "ace",
        1 => "2",
        2 => "3",
        3 => "4",
        4 => "5",
        5 => "6",
        6 => "7",
        7 => "8",
        8 => "9",
        9 => "10",
        10 => "jack",
        11 => "queen",
        _ => "king",
    };
    proof {
        reveal_strlit("ace");
        reveal_strlit("2");
        reveal_strlit("3");
        reveal_strlit("4");
        reveal_strlit("5");
        reveal_strlit("6");
        reveal_strlit("7");
        reveal_strlit("8");
        reveal_strlit("9");
        reveal_strlit("10");
        reveal_strlit("jack");
        reveal_strlit("queen");
        reveal_strlit("king");
        assert(s@ =~= rank_name(r as int));
    }
    s
}

fn suit_str(u: usize) -> (s: &'static str)
    requires
        u < 4,
    ensures
        s@ == suit_name(u as int),
{
    let s = match u {
        0 => "clubs",
        1 => "diamonds",
        2 => "hearts",
        _ => "spades",
    };
    proof {
        reveal_strlit("clubs");
        reveal_strlit("diamonds");
        reveal_strlit("hearts");
        reveal_strlit("spades");
        assert(s@ =~= suit_name(u as int));
    }
    s
}

/// The name of the card at `id` in pack order.
pub fn name_of(id: usize) -> (r: String)
    requires
        id < DECK_SIZE,
    ensures
        r@ == card_name(id as int),
{
    proof {
        reveal_strlit("_of_");
    }
    let mut name = String::from_str(rank_str(id / 4));
    name.append("_of_");
    name.append(suit_str(id % 4));
    assert(name@ =~= card_name(id as int));
    name
}

/// The full pack in order, each card fresh.
pub fn all() -> (r: Vec<Card>)
    ensures
        r@.len() == DECK_SIZE,
        forall|i: int| 0 <= i < DECK_SIZE ==> #[trigger] r@[i].wf() && is_fresh_card(r@[i], card_name(i)),
{
    let mut cards: Vec<Card> = Vec::new();
    let mut id: usize = 0;
    while id < DECK_SIZE
        invariant
            id <= DECK_SIZE,
            cards@.len() == id,
            forall|i: int| 0 <= i < id ==> #[trigger] cards@[i].wf() && is_fresh_card(cards@[i], card_name(i)),
        decreases DECK_SIZE - id,
    {
        let name = name_of(id);
        cards.push(Card::new(name.as_str()));
        id = id + 1;
    }
    cards
}

} // verus!
