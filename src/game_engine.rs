use vstd::prelude::*;

use crate::board::Turn;
use crate::card::{Card, CardNameError, name_is_ace, name_points};

verus! {

/// Points at which a hand is bust above.
pub const BLACKJACK: u32 = 21;

/// The dealer stands on this score or more.
pub const DEALER_STAND: u32 = 17;

/// Most cards a hand may hold, so that its score fits in a `u32`.
pub const MAX_HAND_LEN: usize = 0x0fff_ffff;

/// How a round ended for the player, if it has.
#[derive(Debug, Clone, Copy, PartialEq, Eq, Structural)]
pub enum Outcome {
    Undecided,
    Win,
    Draw,
    Lose,
}

/// Use of the hint power-up in the current round.
#[derive(Debug, Clone, Copy, PartialEq, Eq, Structural)]
pub enum HintStatus {
    Unused,
    Active,
    Exhausted,
}

#[derive(Debug, Clone, Copy, PartialEq, Eq, Structural)]
pub struct GameEngine {
    pub player_score: u32,
    pub dealer_score: u32,
    pub hint: HintStatus,
    pub dealer_handicap_active: bool,
    pub game_over: bool,
    pub outcome: Outcome,
}

/// Sum of the points of the cards of `hand` that are not aces.
pub open spec fn non_ace_points(hand: Seq<Card>) -> int
    decreases hand.len(),
{
    if hand.len() == 0 {
        0
    } else {
        let c = hand.last();
        non_ace_points(hand.drop_last()) + if name_is_ace(c.name@) {
            0int
        } else {
            match name_points(c.name@) {
                Some(p) => p as int,
                None => 0int,
            }
        }
    }
}

/// Number of aces in `hand`.
pub open spec fn ace_count(hand: Seq<Card>) -> int
    decreases hand.len(),
{
    if hand.len() == 0 {
        0
    } else {
        ace_count(hand.drop_last()) + if name_is_ace(hand.last().name@) {
            1int
        } else {
            0int
        }
    }
}

/// Every card of `hand` that is not an ace has a known rank.
pub open spec fn hand_is_valid(hand: Seq<Card>) -> bool {
    forall|i: int|
        0 <= i < hand.len() && !name_is_ace(#[trigger] hand[i].name@) ==> name_points(
            hand[i].name@,
        ).is_some()
}

/// Score of a hand: aces count `11 + (n - 1)` together where that keeps the hand at or
/// under 21, and one each otherwise.
pub open spec fn hand_score(hand: Seq<Card>) -> int {
    let s = non_ace_points(hand);
    let n = ace_count(hand);
    if n > 0 && s + 11 + (n - 1) <= BLACKJACK {
        s + 11 + (n - 1)
    } else {
        s + n
    }
}

/// The engine after the hand of `turn`'s side was scored.
pub open spec fn scored(e: GameEngine, hand: Seq<Card>, turn: Turn) -> GameEngine {
    match turn {
        Turn::Player => GameEngine { player_score: hand_score(hand) as u32, ..e },
        Turn::Dealer => GameEngine { dealer_score: hand_score(hand) as u32, ..e },
    }
}

/// The dealer's score as it is compared with the player's: one less under the handicap.
pub open spec fn effective_dealer_score(e: GameEngine) -> int {
    e.dealer_score - if e.dealer_handicap_active {
        1int
    } else {
        0int
    }
}

/// The outcome that the scores decide on `turn`, if any.
pub open spec fn decided_outcome(e: GameEngine, turn: Turn) -> Outcome {
    if e.player_score > BLACKJACK {
        Outcome::Lose
    } else if e.dealer_score > BLACKJACK {
        Outcome::Win
    } else if turn == Turn::Dealer && e.dealer_score >= DEALER_STAND {
        if e.player_score > effective_dealer_score(e) {
            Outcome::Win
        } else if e.player_score < effective_dealer_score(e) {
            Outcome::Lose
        } else {
            Outcome::Draw
        }
    } else {
        Outcome::Undecided
    }
}

/// The engine and the turn after the outcome was checked on `turn`.
pub open spec fn checked(e: GameEngine, turn: Turn) -> (GameEngine, Turn) {
    let o = decided_outcome(e, turn);
    if o != Outcome::Undecided {
        (GameEngine { game_over: true, outcome: o, ..e }, turn)
    } else if turn == Turn::Player && e.player_score == BLACKJACK {
        (e, Turn::Dealer)
    } else {
        (e, turn)
    }
}

/// The engine at the start of a round.
pub open spec fn initial_engine() -> GameEngine {
    GameEngine {
        player_score: 0,
        dealer_score: 0,
        hint: HintStatus::Unused,
        dealer_handicap_active: false,
        game_over: false,
        outcome: Outcome::Undecided,
    }
}

impl GameEngine {
    pub fn new() -> (r: Self)
        ensures
            r == initial_engine(),
    {
        GameEngine {
            player_score: 0,
            dealer_score: 0,
            hint: HintStatus::Unused,
            dealer_handicap_active: false,
            game_over: false,
            outcome: Outcome::Undecided,
        }
    }

    /// Decides the round from the scores: a bust loses or wins at once, a dealer who
    /// stands is compared with the player, and a player with 21 hands the turn to the
    /// dealer.
    pub fn check_outcome(&mut self, turn: &mut Turn)
        ensures
            (*final(self), *final(turn)) == checked(*old(self), *old(turn)),
    {
        let handicap_addition: u32 = if self.dealer_handicap_active {
            1
        } else {
            0
        };

        if self.player_score > BLACKJACK {
            self.game_over = true;
            self.outcome = Outcome::Lose;
        } else if self.dealer_score > BLACKJACK {
            self.game_over = true;
            self.outcome = Outcome::Win;
        } else if *turn == Turn::Dealer && self.dealer_score >= DEALER_STAND
            && self.player_score > self.dealer_score - handicap_addition {
            self.game_over = true;
            self.outcome = Outcome::Win;
        } else if *turn == Turn::Dealer && self.dealer_score >= DEALER_STAND
            && self.player_score < self.dealer_score - handicap_addition {
            self.game_over = true;
            self.outcome = Outcome::Lose;
        } else if *turn == Turn::Dealer && self.dealer_score >= DEALER_STAND
            && self.player_score == self.dealer_score - handicap_addition {
            self.game_over = true;
            self.outcome = Outcome::Draw;
        } else if *turn == Turn::Player && self.player_score == BLACKJACK {
            *turn = Turn::Dealer;
        }
    }

    /// Scores `dealed_cards` from scratch into the score of `turn`'s side. A card that is
    /// not an ace and has no known rank is an error, and leaves the engine as it was.
    pub fn score(&mut self, dealed_cards: &Vec<Card>, turn: Turn) -> (r: Result<(), CardNameError>)
        requires
            dealed_cards@.len() <= MAX_HAND_LEN,
        ensures
            r is Ok <==> hand_is_valid(dealed_cards@),
            r is Ok ==> *final(self) == scored(*old(self), dealed_cards@, turn),
            r is Err ==> *final(self) == *old(self),
    {
        let mut score: u32 = 0;
        let mut num_of_aces: u32 = 0;
        let mut i: usize = 0;
        while i < dealed_cards.len()
            invariant
                i <= dealed_cards@.len() <= MAX_HAND_LEN,
                score == non_ace_points(dealed_cards@.subrange(0, i as int)),
                num_of_aces == ace_count(dealed_cards@.subrange(0, i as int)),
                score <= 10 * i,
                num_of_aces <= i,
                hand_is_valid(dealed_cards@.subrange(0, i as int)),
            decreases dealed_cards@.len() - i,
        {
            let card = &dealed_cards[i];
            let ghost prefix = dealed_cards@.subrange(0, i as int);
            let ghost next = dealed_cards@.subrange(0, i + 1);
            assert(next.drop_last() =~= prefix);
            if card.is_an_ace() {
                num_of_aces = num_of_aces + 1;
            } else {
                match card.get_points() {
                    Ok(p) => {
                        score = score + p;
                    },
                    Err(e) => {
                        assert(!hand_is_valid(dealed_cards@)) by {
                            assert(dealed_cards@[i as int] == card);
                        }
                        return Err(e);
                    },
                }
            }
            i = i + 1;
        }
        assert(dealed_cards@.subrange(0, i as int) =~= dealed_cards@);

        if num_of_aces > 0 && score + 11 + (num_of_aces - 1) <= BLACKJACK {
            score = score + 11 + (num_of_aces - 1);
        } else {
            score = score + num_of_aces;
        }

        match turn {
            Turn::Player => self.player_score = score,
            Turn::Dealer => self.dealer_score = score,
        }
        Ok(())
    }
}


/// A hand without aces scores exactly the sum of its cards' points.
pub proof fn lemma_score_without_aces(hand: Seq<Card>)
    requires
        forall|i: int| 0 <= i < hand.len() ==> !name_is_ace(#[trigger] hand[i].name@),
    ensures
        ace_count(hand) == 0,
        hand_score(hand) == non_ace_points(hand),
    decreases hand.len(),
{
    if hand.len() > 0 {
        let rest = hand.drop_last();
        assert forall|i: int| 0 <= i < rest.len() implies !name_is_ace(#[trigger] rest[i].name@) by {
            assert(rest[i] == hand[i]);
        }
        lemma_score_without_aces(rest);
        assert(!name_is_ace(hand[hand.len() - 1].name@));
    }
}

/// Aces count high while they can: one ace beside at most 10 other points counts 11,
/// beside more it counts 1; `n` aces count `11 + (n - 1)` within 21 and `n` beyond.
pub proof fn lemma_ace_scoring(hand: Seq<Card>)
    ensures
        ace_count(hand) == 1 && non_ace_points(hand) <= 10 ==> hand_score(hand) == non_ace_points(hand) + 11,
        ace_count(hand) == 1 && non_ace_points(hand) > 10 ==> hand_score(hand) == non_ace_points(hand) + 1,
        ace_count(hand) >= 1 && non_ace_points(hand) + 11 + (ace_count(hand) - 1) <= BLACKJACK
            ==> hand_score(hand) == non_ace_points(hand) + 11 + (ace_count(hand) - 1),
        non_ace_points(hand) + 11 + (ace_count(hand) - 1) > BLACKJACK
            ==> hand_score(hand) == non_ace_points(hand) + ace_count(hand),
{
}

/// A player over 21 loses, whatever the turn and the dealer's score.
pub proof fn lemma_player_bust_loses(e: GameEngine, turn: Turn)
    requires
        e.player_score > BLACKJACK,
    ensures
        checked(e, turn).0.outcome == Outcome::Lose,
        checked(e, turn).0.game_over,
        checked(e, turn).1 == turn,
{
}

/// A dealer over 21 loses to a player who is not bust.
pub proof fn lemma_dealer_bust_wins(e: GameEngine, turn: Turn)
    requires
        e.player_score <= BLACKJACK,
        e.dealer_score > BLACKJACK,
    ensures
        checked(e, turn).0.outcome == Outcome::Win,
        checked(e, turn).0.game_over,
        checked(e, turn).1 == turn,
{
}

/// On the dealer's turn, a dealer on 17 to 21 is compared with the player: the higher
/// score wins, equal scores draw. The handicap lowers the dealer's score by one in the
/// comparison and nowhere else.
pub proof fn lemma_dealer_stands(e: GameEngine)
    requires
        e.player_score <= BLACKJACK,
        DEALER_STAND <= e.dealer_score <= BLACKJACK,
    ensures
        ({
            let d = e.dealer_score - if e.dealer_handicap_active {
                1int
            } else {
                0int
            };
            let (e2, t2) = checked(e, Turn::Dealer);
            &&& e2.game_over
            &&& t2 == Turn::Dealer
            &&& e.player_score > d ==> e2.outcome == Outcome::Win
            &&& e.player_score < d ==> e2.outcome == Outcome::Lose
            &&& e.player_score == d ==> e2.outcome == Outcome::Draw
            &&& e2.player_score == e.player_score
            &&& e2.dealer_score == e.dealer_score
        }),
{
}

/// A player on 21 during the player's turn hands the turn to the dealer, and the round
/// stays as undecided as it was.
pub proof fn lemma_natural_blackjack(e: GameEngine)
    requires
        e.player_score == BLACKJACK,
        e.dealer_score <= BLACKJACK,
    ensures
        checked(e, Turn::Player).1 == Turn::Dealer,
        checked(e, Turn::Player).0 == e,
{
}

/// Scoring the same hand twice leaves the engine as scoring it once does.
pub proof fn lemma_score_idempotent(e: GameEngine, hand: Seq<Card>, turn: Turn)
    ensures
        scored(scored(e, hand, turn), hand, turn) == scored(e, hand, turn),
{
}

} // verus!
