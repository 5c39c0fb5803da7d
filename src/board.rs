use vstd::prelude::*;

use rand::seq::SliceRandom;

use crate::card::{
    Card, CardMoveState, DECK_SIZE, FlipAnimationState, Point, Vector, COORD_LIMIT,
    MAX_TIME_STEP, card_name, card_step, name_points, rank_name, is_fresh_card, lemma_card_name_injective, name_of,
    point_in_range, vector_in_range,
};

verus! {

broadcast use {vstd::seq_lib::to_multiset_contains, vstd::seq_lib::to_multiset_len};

/// Where the pack lies, in sub-pixel units (75 to a pixel).
pub const DECK_X: i64 = 7500;
pub const DECK_Y: i64 = 12000;

/// The column of each side's first slot.
pub const FIRST_SLOT_X: i64 = 7500;

/// The row of the player's slots.
pub const PLAYER_ROW_Y: i64 = 57750;

/// The row of the dealer's slots.
pub const DEALER_ROW_Y: i64 = 35625;

pub open spec fn deck_position() -> Point {
    Point { x: DECK_X, y: DECK_Y }
}

/// Frames that a dealt card takes from the pack to its slot.
pub const MOVING_CARD_FRAMES: i64 = 75;

/// Horizontal distance between neighbouring slots.
pub const CARD_SPACING: i64 = 12750;

/// Which side is receiving cards.
#[derive(Debug, Clone, Copy, PartialEq, Eq, Structural)]
pub enum Turn {
    Player,
    Dealer,
}

/// Relies on rand's `SliceRandom::shuffle`, driven by `rand::thread_rng`: it reorders
/// the elements and keeps each one.
#[verifier::external_body]
fn shuffle_ids(ids: &mut Vec<usize>)
    ensures
        final(ids)@.to_multiset() == old(ids)@.to_multiset(),
{
    let mut rng = rand::thread_rng();
    ids.shuffle(&mut rng);
}

/// Every card of the pack has a known rank.
proof fn lemma_standard_names_ranked(id: int)
    requires
        0 <= id < DECK_SIZE,
    ensures
        name_points(card_name(id)).is_some(),
{
    assert(card_name(id)[0] == rank_name(id / 4)[0]);
}

/// The cards left to deal; the next one dealt is the last.
pub struct Deck {
    cards: Vec<Card>,
    /// Place in pack order of each card.
    ids: Ghost<Seq<int>>,
}

impl View for Deck {
    type V = Seq<Card>;

    closed spec fn view(&self) -> Seq<Card> {
        self.cards@
    }
}

/// No two cards of `cards` share a name.
pub open spec fn names_distinct(cards: Seq<Card>) -> bool {
    forall|i: int, j: int|
        0 <= i < cards.len() && 0 <= j < cards.len() && i != j ==> #[trigger] cards[i].name@
            != #[trigger] cards[j].name@
}

/// Every card of `cards` is a fresh card of the standard pack.
pub open spec fn all_standard(cards: Seq<Card>) -> bool {
    forall|i: int|
        0 <= i < cards.len() ==> #[trigger] cards[i].wf() && exists|id: int|
            0 <= id < DECK_SIZE && is_fresh_card(cards[i], card_name(id))
}

impl Deck {
    pub closed spec fn wf(&self) -> bool {
        &&& self.cards@.len() == self.ids@.len()
        &&& self.ids@.no_duplicates()
        &&& forall|i: int|
            0 <= i < self.ids@.len() ==> 0 <= #[trigger] self.ids@[i] < DECK_SIZE && self.cards@[i].wf()
                && is_fresh_card(self.cards@[i], card_name(self.ids@[i]))
    }

    proof fn lemma_wf_facts(&self)
        requires
            self.wf(),
        ensures
            names_distinct(self@),
            all_standard(self@),
    {
        assert forall|i: int, j: int|
            0 <= i < self@.len() && 0 <= j < self@.len() && i != j implies #[trigger] self@[i].name@
            != #[trigger] self@[j].name@ by {
            if self@[i].name@ == self@[j].name@ {
                lemma_card_name_injective(self.ids@[i], self.ids@[j]);
            }
        }
        assert forall|i: int| 0 <= i < self@.len() implies #[trigger] self@[i].wf() && exists|id: int|
            0 <= id < DECK_SIZE && is_fresh_card(self@[i], card_name(id)) by {
            let id = self.ids@[i];
            assert(0 <= id < DECK_SIZE && is_fresh_card(self@[i], card_name(id)));
        }
    }

    /// A full pack of 52 differently named cards in random order.
    pub fn new() -> (r: Self)
        ensures
            r.wf(),
            r@.len() == DECK_SIZE,
            names_distinct(r@),
            all_standard(r@),
    {
        let mut ids: Vec<usize> = Vec::new();
        let mut k: usize = 0;
        while k < DECK_SIZE
            invariant
                k <= DECK_SIZE,
                ids@.len() == k,
                forall|i: int| 0 <= i < k ==> #[trigger] ids@[i] == i,
            decreases DECK_SIZE - k,
        {
            ids.push(k);
            k = k + 1;
        }
        let ghost ordered = ids@;
        proof {
            ordered.lemma_multiset_has_no_duplicates();
        }
        shuffle_ids(&mut ids);
        proof {
            assert(ids@.to_multiset().len() == ids@.len());
            assert(ordered.to_multiset().len() == ordered.len());
            ids@.lemma_multiset_has_no_duplicates_conv();
            assert forall|i: int| 0 <= i < ids@.len() implies #[trigger] ids@[i] < DECK_SIZE by {
                assert(ids@.to_multiset().contains(ids@[i]));
                assert(ordered.contains(ids@[i]));
            }
        }
        let mut cards: Vec<Card> = Vec::new();
        let mut n: usize = 0;
        while n < ids.len()
            invariant
                n <= ids@.len() == DECK_SIZE,
                cards@.len() == n,
                forall|i: int| 0 <= i < ids@.len() ==> #[trigger] ids@[i] < DECK_SIZE,
                forall|i: int|
                    0 <= i < n ==> #[trigger] cards@[i].wf() && is_fresh_card(
                        cards@[i],
                        card_name(ids@[i] as int),
                    ),
            decreases ids@.len() - n,
        {
            let name = name_of(ids[n]);
            cards.push(Card::new(name.as_str()));
            n = n + 1;
        }
        let deck = Deck { cards, ids: Ghost(ids@.map_values(|i: usize| i as int)) };
        proof {
            assert forall|i: int, j: int|
                0 <= i < deck.ids@.len() && 0 <= j < deck.ids@.len() && i != j implies deck.ids@[i]
                != deck.ids@[j] by {
                assert(ids@[i] != ids@[j]);
            }
            assert forall|i: int| 0 <= i < deck.ids@.len() implies 0 <= #[trigger] deck.ids@[i] < DECK_SIZE
                && deck.cards@[i].wf() && is_fresh_card(deck.cards@[i], card_name(deck.ids@[i])) by {
                assert(deck.ids@[i] == ids@[i] as int);
                assert(ids@[i] < DECK_SIZE);
                assert(deck.cards@[i].wf());
            }
            deck.lemma_wf_facts();
        }
        deck
    }

    /// The next card to deal has a known rank.
    pub proof fn lemma_top_ranked(&self)
        requires
            self.wf(),
            self@.len() > 0,
        ensures
            name_points(self@.last().name@).is_some(),
    {
        let last = self.ids@.len() - 1;
        assert(0 <= self.ids@[last] < DECK_SIZE);
        lemma_standard_names_ranked(self.ids@[last]);
    }

    /// Number of cards left.
    pub fn len(&self) -> (r: usize)
        ensures
            r == self@.len(),
    {
        self.cards.len()
    }

    /// Takes the top card, laid at the pack's place on the table.
    pub fn deal_card(&mut self) -> (r: Card)
        requires
            old(self).wf(),
            old(self)@.len() > 0,
        ensures
            final(self).wf(),
            final(self)@ == old(self)@.drop_last(),
            r == (Card { position: deck_position(), ..old(self)@.last() }),
            r.wf(),
            name_points(r.name@).is_some(),
    {
        proof {
            let last = self.ids@.len() - 1;
            assert(0 <= self.ids@[last] < DECK_SIZE && self.cards@[last].wf());
            lemma_standard_names_ranked(self.ids@[last]);
        }
        let mut card = self.cards.pop().unwrap();
        self.ids = Ghost(self.ids@.drop_last());
        card.position = Point { x: DECK_X, y: DECK_Y };
        card
    }

    /// A copy of the card that the next deal hands out.
    pub fn get_top_card(&self) -> (r: Card)
        requires
            self@.len() > 0,
        ensures
            r == self@.last(),
    {
        let top = &self.cards[self.cards.len() - 1];
        Card {
            flip_state: top.flip_state,
            move_state: top.move_state,
            name: top.name.clone(),
            position: top.position,
            animation: top.animation,
            flipped: top.flipped,
        }
    }
}


/// Largest column a slot moves to; the slots of a side stop advancing there.
pub const MAX_SLOT_X: i64 = 0xff_0000_0000;

/// Per-frame move from the pack to the slot at `p`: the whole way in 75 frames.
pub open spec fn translation_towards(p: Point) -> Vector {
    Vector {
        x: ((p.x - DECK_X) / (MOVING_CARD_FRAMES as int)) as i64,
        y: ((p.y - DECK_Y) / (MOVING_CARD_FRAMES as int)) as i64,
    }
}

/// The slot after `p` on the same row, unless `p` is the last column.
pub open spec fn next_slot(p: Point) -> Point {
    if p.x + CARD_SPACING <= MAX_SLOT_X {
        Point { x: (p.x + CARD_SPACING) as i64, y: p.y }
    } else {
        p
    }
}

/// `p` is a slot of the row `row`.
pub open spec fn slot_ok(p: Point, row: i64) -> bool {
    FIRST_SLOT_X <= p.x <= MAX_SLOT_X && p.y == row
}

/// Some card of `hand` is still travelling.
pub open spec fn any_moving(hand: Seq<Card>) -> bool {
    exists|i: int| 0 <= i < hand.len() && #[trigger] hand[i].move_state == CardMoveState::Moving
}

/// Some card of `hand` is in the middle of a flip.
pub open spec fn any_flipping(hand: Seq<Card>) -> bool {
    exists|i: int|
        0 <= i < hand.len() && #[trigger] hand[i].animation.state != FlipAnimationState::Stopped
}

/// The move that a card is given: `t` while it travels, nothing once it stopped.
pub open spec fn move_of(c: Card, t: Vector) -> Vector {
    if c.move_state == CardMoveState::Moving {
        t
    } else {
        Vector { x: 0, y: 0 }
    }
}

/// Each card of `hand` after one frame towards `dest`.
pub open spec fn hand_step(hand: Seq<Card>, time_delta: int, t: Vector, dest: Point) -> Seq<Card> {
    Seq::new(hand.len(), |i: int| card_step(hand[i], time_delta, move_of(hand[i], t), dest))
}

pub open spec fn hand_wf(hand: Seq<Card>) -> bool {
    forall|i: int| 0 <= i < hand.len() ==> #[trigger] hand[i].wf()
}

/// Every card of `hand` has a known rank.
pub open spec fn hand_ranked(hand: Seq<Card>) -> bool {
    forall|i: int| 0 <= i < hand.len() ==> name_points(#[trigger] hand[i].name@).is_some()
}

fn get_translating_vector(next_pos: Point) -> (r: Vector)
    requires
        FIRST_SLOT_X <= next_pos.x <= MAX_SLOT_X,
        DECK_Y <= next_pos.y <= MAX_SLOT_X,
    ensures
        r == translation_towards(next_pos),
        vector_in_range(r),
{
    let vec_x: i64 = (next_pos.x - DECK_X) / MOVING_CARD_FRAMES;
    let vec_y: i64 = (next_pos.y - DECK_Y) / MOVING_CARD_FRAMES;
    Vector { x: vec_x, y: vec_y }
}

/// Runs one frame on every card of `hand`; tells whether any card was travelling and
/// whether any was flipping before the frame.
fn update_hand(hand: &mut Vec<Card>, time_delta: u64, translation: Vector, dest: Point) -> (r: (bool, bool))
    requires
        hand_wf(old(hand)@),
        time_delta <= MAX_TIME_STEP,
        vector_in_range(translation),
        point_in_range(dest),
    ensures
        hand_wf(final(hand)@),
        hand_ranked(old(hand)@) ==> hand_ranked(final(hand)@),
        final(hand)@ == hand_step(old(hand)@, time_delta as int, translation, dest),
        r.0 == any_moving(old(hand)@),
        r.1 == any_flipping(old(hand)@),
{
    let ghost before = hand@;
    let mut is_moving = false;
    let mut is_flipping = false;
    let mut i: usize = 0;
    while i < hand.len()
        invariant
            i <= hand@.len() == before.len(),
            hand_wf(before),
            time_delta <= MAX_TIME_STEP,
            vector_in_range(translation),
            point_in_range(dest),
            forall|j: int| 0 <= j < i ==> #[trigger] hand@[j] == card_step(
                before[j],
                time_delta as int,
                move_of(before[j], translation),
                dest,
            ) && hand@[j].wf(),
            forall|j: int| i <= j < hand@.len() ==> #[trigger] hand@[j] == before[j],
            is_moving == exists|j: int| 0 <= j < i && #[trigger] before[j].move_state == CardMoveState::Moving,
            is_flipping == exists|j: int|
                0 <= j < i && #[trigger] before[j].animation.state != FlipAnimationState::Stopped,
        decreases hand@.len() - i,
    {
        let mut vec = Vector { x: 0, y: 0 };
        if hand[i].move_state == CardMoveState::Moving {
            is_moving = true;
            vec = translation;
        }
        if hand[i].animation.state != FlipAnimationState::Stopped {
            is_flipping = true;
        }
        assert(hand@[i as int] == before[i as int]);
        hand[i].update(time_delta, vec, dest);
        i = i + 1;
    }
    assert(hand@ =~= hand_step(before, time_delta as int, translation, dest));
    assert forall|j: int| 0 <= j < hand@.len() implies #[trigger] hand@[j].name == before[j].name by {
        assert(hand@[j] == card_step(before[j], time_delta as int, move_of(before[j], translation), dest));
    }
    (is_moving, is_flipping)
}

/// What a board holds, as values: the pack, the turn, both hands, the two flags, the
/// next slot of each side and the step that dealt cards travel by.
pub struct Table {
    pub deck: Seq<Card>,
    pub turn: Turn,
    pub player: Seq<Card>,
    pub dealer: Seq<Card>,
    pub calculate_result: bool,
    pub card_moving: bool,
    pub slot_player: Point,
    pub slot_dealer: Point,
    pub translation: Vector,
}

/// The slot that the next card of the side on turn goes to.
pub open spec fn slot_on_turn(t: Table) -> Point {
    match t.turn {
        Turn::Player => t.slot_player,
        Turn::Dealer => t.slot_dealer,
    }
}

/// One frame of the table, and whether a card came to rest in it. Every card runs its
/// frame towards its side's slot. Where all cards have stopped travelling and flipping
/// while the board was locked, it unlocks, the side on turn moves on to its next slot,
/// the next deal is aimed there, and the hand is to be scored. Otherwise the board
/// locks if some card travels, and nothing else changes.
pub open spec fn table_step(t: Table, time_delta: int) -> (Table, bool) {
    let moving = any_moving(t.player) || any_moving(t.dealer);
    let flipping = any_flipping(t.player) || any_flipping(t.dealer);
    let player = hand_step(t.player, time_delta, t.translation, t.slot_player);
    let dealer = hand_step(t.dealer, time_delta, t.translation, t.slot_dealer);
    if !moving && !flipping && t.card_moving {
        let slot_player = if t.turn == Turn::Player {
            next_slot(t.slot_player)
        } else {
            t.slot_player
        };
        let slot_dealer = if t.turn == Turn::Dealer {
            next_slot(t.slot_dealer)
        } else {
            t.slot_dealer
        };
        let next = Table { slot_player, slot_dealer, ..t };
        (
            Table {
                player,
                dealer,
                card_moving: false,
                calculate_result: true,
                translation: translation_towards(slot_on_turn(next)),
                ..next
            },
            true,
        )
    } else {
        (Table { player, dealer, card_moving: t.card_moving || moving, ..t }, false)
    }
}

/// A table as a new round sets it up: a full pack of differently named standard cards,
/// empty hands, the player on turn, both sides at their first slot, the next deal aimed
/// at the player's.
pub open spec fn fresh_table(t: Table) -> bool {
    &&& t.deck.len() == DECK_SIZE
    &&& names_distinct(t.deck)
    &&& all_standard(t.deck)
    &&& t.turn == Turn::Player
    &&& t.player.len() == 0
    &&& t.dealer.len() == 0
    &&& !t.calculate_result
    &&& !t.card_moving
    &&& t.slot_player == (Point { x: FIRST_SLOT_X, y: PLAYER_ROW_Y })
    &&& t.slot_dealer == (Point { x: FIRST_SLOT_X, y: DEALER_ROW_Y })
    &&& t.translation == translation_towards(t.slot_player)
}

/// The table of one round: the pack, both hands and the cards' travel.
pub struct Board {
    pub deck: Deck,
    pub turn: Turn,
    pub dealed_cards_player: Vec<Card>,
    pub dealed_cards_dealer: Vec<Card>,
    /// A card settled and its hand is to be scored.
    pub calculate_result: bool,
    /// Some dealt card is still travelling or flipping; no new card is dealt meanwhile.
    pub card_moving: bool,
    pub next_card_position_player: Point,
    pub next_card_position_dealer: Point,
    pub translation: Vector,
}

impl View for Board {
    type V = Table;

    open spec fn view(&self) -> Table {
        Table {
            deck: self.deck@,
            turn: self.turn,
            player: self.dealed_cards_player@,
            dealer: self.dealed_cards_dealer@,
            calculate_result: self.calculate_result,
            card_moving: self.card_moving,
            slot_player: self.next_card_position_player,
            slot_dealer: self.next_card_position_dealer,
            translation: self.translation,
        }
    }
}

impl Board {
    pub open spec fn wf(&self) -> bool {
        &&& self.deck.wf()
        &&& hand_wf(self.dealed_cards_player@)
        &&& hand_wf(self.dealed_cards_dealer@)
        &&& hand_ranked(self.dealed_cards_player@)
        &&& hand_ranked(self.dealed_cards_dealer@)
        &&& slot_ok(self.next_card_position_player, PLAYER_ROW_Y)
        &&& slot_ok(self.next_card_position_dealer, DEALER_ROW_Y)
        &&& vector_in_range(self.translation)
    }

    /// The slot that the next card of the side on turn goes to.
    pub open spec fn active_slot(&self) -> Point {
        match self.turn {
            Turn::Player => self.next_card_position_player,
            Turn::Dealer => self.next_card_position_dealer,
        }
    }

    /// A new round: a shuffled full pack, empty hands, the player on turn.
    pub fn new() -> (r: Board)
        ensures
            r.wf(),
            r.deck@.len() == DECK_SIZE,
            names_distinct(r.deck@),
            all_standard(r.deck@),
            r.turn == Turn::Player,
            r.dealed_cards_player@.len() == 0,
            r.dealed_cards_dealer@.len() == 0,
            !r.calculate_result,
            !r.card_moving,
            r.next_card_position_player == (Point { x: FIRST_SLOT_X, y: PLAYER_ROW_Y }),
            r.next_card_position_dealer == (Point { x: FIRST_SLOT_X, y: DEALER_ROW_Y }),
            r.translation == translation_towards(r.next_card_position_player),
            fresh_table(r@),
    {
        let first_player = Point { x: FIRST_SLOT_X, y: PLAYER_ROW_Y };
        Board {
            deck: Deck::new(),
            turn: Turn::Player,
            dealed_cards_player: Vec::new(),
            dealed_cards_dealer: Vec::new(),
            calculate_result: false,
            card_moving: false,
            next_card_position_player: first_player,
            next_card_position_dealer: Point { x: FIRST_SLOT_X, y: DEALER_ROW_Y },
            translation: get_translating_vector(first_player),
        }
    }

    fn change_next_position(&mut self)
        requires
            old(self).wf(),
        ensures
            final(self).wf(),
            final(self).active_slot() == next_slot(old(self).active_slot()),
            final(self).turn == old(self).turn,
            old(self).turn == Turn::Player ==> final(self).next_card_position_dealer
                == old(self).next_card_position_dealer,
            old(self).turn == Turn::Dealer ==> final(self).next_card_position_player
                == old(self).next_card_position_player,
            final(self).deck == old(self).deck,
            final(self).dealed_cards_player == old(self).dealed_cards_player,
            final(self).dealed_cards_dealer == old(self).dealed_cards_dealer,
            final(self).calculate_result == old(self).calculate_result,
            final(self).card_moving == old(self).card_moving,
            final(self).translation == old(self).translation,
    {
        match self.turn {
            Turn::Player => {
                if self.next_card_position_player.x <= MAX_SLOT_X - CARD_SPACING {
                    self.next_card_position_player.x = self.next_card_position_player.x + CARD_SPACING;
                }
            },
            Turn::Dealer => {
                if self.next_card_position_dealer.x <= MAX_SLOT_X - CARD_SPACING {
                    self.next_card_position_dealer.x = self.next_card_position_dealer.x + CARD_SPACING;
                }
            },
        }
    }

    fn change_translating_vector(&mut self)
        requires
            old(self).wf(),
        ensures
            final(self).wf(),
            final(self).translation == translation_towards(old(self).active_slot()),
            final(self).turn == old(self).turn,
            final(self).deck == old(self).deck,
            final(self).dealed_cards_player == old(self).dealed_cards_player,
            final(self).dealed_cards_dealer == old(self).dealed_cards_dealer,
            final(self).calculate_result == old(self).calculate_result,
            final(self).card_moving == old(self).card_moving,
            final(self).next_card_position_player == old(self).next_card_position_player,
            final(self).next_card_position_dealer == old(self).next_card_position_dealer,
    {
        match self.turn {
            Turn::Player => {
                self.translation = get_translating_vector(self.next_card_position_player);
            },
            Turn::Dealer => {
                self.translation = get_translating_vector(self.next_card_position_dealer);
            },
        }
    }

    /// One frame of the table. Every card runs its frame towards its side's slot. On the
    /// frame where a card starts travelling the board locks out deals. On the frame where
    /// everything comes to rest after that, it unlocks, moves the side on turn to its next
    /// slot, aims the next deal there, asks for scoring and returns `true` (the moment for
    /// the flip sound). Otherwise nothing else changes and it returns `false`.
    pub fn update(&mut self, time_delta: u64) -> (settled: bool)
        requires
            old(self).wf(),
            time_delta <= MAX_TIME_STEP,
        ensures
            final(self).wf(),
            (final(self)@, settled) == table_step(old(self)@, time_delta as int),
    {
        let (moving_p, flipping_p) = update_hand(
            &mut self.dealed_cards_player,
            time_delta,
            self.translation,
            self.next_card_position_player,
        );
        let (moving_d, flipping_d) = update_hand(
            &mut self.dealed_cards_dealer,
            time_delta,
            self.translation,
            self.next_card_position_dealer,
        );
        let is_moving = moving_p || moving_d;
        let is_flipping = flipping_p || flipping_d;

        if is_moving && !self.card_moving {
            self.card_moving = true;
            false
        } else if !is_moving && !is_flipping && self.card_moving {
            self.card_moving = false;
            self.change_next_position();
            self.change_translating_vector();
            self.calculate_result = true;
            true
        } else {
            false
        }
    }

    /// Puts a dealt card into the hand of the side on turn.
    pub fn set_card(&mut self, dealed_card: Card)
        requires
            old(self).wf(),
            dealed_card.wf(),
            name_points(dealed_card.name@).is_some(),
        ensures
            final(self).wf(),
            old(self).turn == Turn::Player ==> final(self).dealed_cards_player@
                == old(self).dealed_cards_player@.push(dealed_card) && final(self).dealed_cards_dealer
                == old(self).dealed_cards_dealer,
            old(self).turn == Turn::Dealer ==> final(self).dealed_cards_dealer@
                == old(self).dealed_cards_dealer@.push(dealed_card) && final(self).dealed_cards_player
                == old(self).dealed_cards_player,
            final(self).deck == old(self).deck,
            final(self).turn == old(self).turn,
            final(self).calculate_result == old(self).calculate_result,
            final(self).card_moving == old(self).card_moving,
            final(self).next_card_position_player == old(self).next_card_position_player,
            final(self).next_card_position_dealer == old(self).next_card_position_dealer,
            final(self).translation == old(self).translation,
    {
        match self.turn {
            Turn::Player => self.dealed_cards_player.push(dealed_card),
            Turn::Dealer => self.dealed_cards_dealer.push(dealed_card),
        }
    }
}

} // verus!
