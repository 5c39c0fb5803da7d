use vstd::prelude::*;

use rand::Rng;

use crate::board::{Board, Table, Turn, DECK_X, DECK_Y, all_standard, deck_position, fresh_table, names_distinct, table_step};
use crate::card::{Card, MAX_TIME_STEP, Point, name_points};
use crate::game_engine::{GameEngine, HintStatus, MAX_HAND_LEN, Outcome, checked, initial_engine, scored};
use crate::stats::{format_stats, stats_text};

verus! {

/// Sub-pixel units to a pixel.
pub const PIXEL: i64 = 75;

/// Width of the range that a hint names.
pub const HINT_RANGE_SIZE: u32 = 4;

/// Microseconds from the end of a round to the result screen.
pub const TIME_TILL_GAME_OVER: u64 = 4_000_000;

/// Microseconds that the result screen shows before the menu.
pub const TIME_TILL_MENU: u64 = 3_000_000;

/// The screen that is showing.
#[derive(Debug, Clone, Copy, PartialEq, Eq, Structural)]
pub enum GameStatus {
    Menu,
    Help,
    Play,
}

/// A key that acts on the round.
#[derive(Debug, Clone, Copy, PartialEq, Eq, Structural)]
pub enum KeyAction {
    /// The player stands: the dealer's turn begins.
    Stand,
    /// Spend a hint charge.
    Hint,
    /// Spend a handicap charge.
    Handicap,
}

/// What a frame asks of the presentation layer.
#[derive(Debug, Clone, Copy, PartialEq, Eq, Structural)]
pub struct FrameEvents {
    /// A card was dealt: it needs its images and the deal sound plays.
    pub dealt: bool,
    /// A card came to rest: the flip sound plays.
    pub settled: bool,
    /// The round was closed and a new one set up: the stats are to be saved.
    pub round_over: bool,
}

/// Relies on rand's `Rng::gen_range` over `rand::thread_rng`: a value in `0..bound`
/// (it panics on an empty range, which `requires` leaves out).
#[verifier::external_body]
fn random_below(bound: u32) -> (r: u32)
    requires
        bound > 0,
    ensures
        r < bound,
{
    rand::thread_rng().gen_range(0..bound)
}

/// `p` lies in the rectangle `[left, right] x [top, bottom]`.
pub open spec fn in_rect(p: Point, left: int, right: int, top: int, bottom: int) -> bool {
    left <= p.x <= right && top <= p.y <= bottom
}

/// The hint range for a next card worth `points`, shifted down by `offset`: a window of
/// four that holds the value, kept within 2 to 11.
pub open spec fn hint_range_for(points: int, offset: int) -> (u32, u32) {
    if points - offset + HINT_RANGE_SIZE > 11 {
        (7, 11)
    } else if points - offset < 2 {
        (2, 6)
    } else {
        ((points - offset) as u32, (points - offset + HINT_RANGE_SIZE) as u32)
    }
}

/// `n + 1`, or `n` at the top of the range.
pub open spec fn bumped(n: u32) -> u32 {
    if n < u32::MAX {
        (n + 1) as u32
    } else {
        n
    }
}

/// `a - b`, or 0 below it.
pub open spec fn time_left(a: u64, b: u64) -> u64 {
    if a > b {
        (a - b) as u64
    } else {
        0
    }
}

fn bump(n: u32) -> (r: u32)
    ensures
        r == bumped(n),
{
    if n < u32::MAX {
        n + 1
    } else {
        n
    }
}

/// Left edge of the menu's PLAY label, in pixels.
pub const MENU_PLAY_X: i64 = 800;
pub const MENU_PLAY_Y: i64 = 500;
/// Left edge of the menu's HELP label, in pixels.
pub const MENU_HELP_X: i64 = 800;
pub const MENU_HELP_Y: i64 = 700;
/// Left edge of the help screen's BACK label, in pixels.
pub const HELP_BACK_X: i64 = 1600;
pub const HELP_BACK_Y: i64 = 800;
/// Half the width and half the height of a card on the table, in pixels.
pub const CARD_HALF_WIDTH: i64 = 75;
pub const CARD_HALF_HEIGHT: i64 = 100;

/// `p` is over the label whose top left corner is at pixel `(x, y)`: from 10 pixels
/// before it to 120 pixels after it across, and to 50 pixels below it.
pub open spec fn over_label(p: Point, x: int, y: int) -> bool {
    in_rect(p, (x - 10) * PIXEL, (x + 120) * PIXEL, (y - 10) * PIXEL, (y + 50) * PIXEL)
}

/// `p` is over the pack.
pub open spec fn over_deck(p: Point) -> bool {
    in_rect(
        p,
        DECK_X - CARD_HALF_WIDTH * PIXEL,
        DECK_X + CARD_HALF_WIDTH * PIXEL,
        DECK_Y - CARD_HALF_HEIGHT * PIXEL,
        DECK_Y + CARD_HALF_HEIGHT * PIXEL,
    )
}

fn mouse_over_label(p: Point, x: i64, y: i64) -> (r: bool)
    requires
        0 <= x <= 10000,
        0 <= y <= 10000,
    ensures
        r == over_label(p, x as int, y as int),
{
    let matches_horizontal = p.x >= (x - 10) * PIXEL && p.x <= (x + 120) * PIXEL;
    let matches_vertical = p.y >= (y - 10) * PIXEL && p.y <= (y + 50) * PIXEL;
    matches_horizontal && matches_vertical
}

/// A deal can be made for the side on turn: the pack has a card and the hand has room.
pub open spec fn can_deal(t: Table) -> bool {
    &&& t.deck.len() > 0
    &&& match t.turn {
        Turn::Player => t.player.len() < MAX_HAND_LEN,
        Turn::Dealer => t.dealer.len() < MAX_HAND_LEN,
    }
}

/// This frame asks for a deal: the dealer draws whenever the round is open and no card
/// travels; the player draws by a click on the pack under the same conditions.
pub open spec fn wants_deal(t: Table, e: GameEngine, click: Option<Point>) -> bool {
    &&& !e.game_over
    &&& !t.card_moving
    &&& (t.turn == Turn::Dealer || (click is Some && over_deck(click->0)))
}

/// The card that a deal hands out: the top of the pack, laid at the pack's place.
pub open spec fn top_dealt(t: Table) -> Card {
    Card { position: deck_position(), ..t.deck.last() }
}

/// The table and the engine after a deal, if `deal`: the top card leaves the pack for
/// the hand of the side on turn, and a player's deal uses up an active hint.
pub open spec fn deal_step(t: Table, e: GameEngine, deal: bool) -> (Table, GameEngine) {
    if !deal {
        (t, e)
    } else if t.turn == Turn::Player {
        (
            Table { deck: t.deck.drop_last(), player: t.player.push(top_dealt(t)), ..t },
            if e.hint == HintStatus::Active {
                GameEngine { hint: HintStatus::Exhausted, ..e }
            } else {
                e
            },
        )
    } else {
        (Table { deck: t.deck.drop_last(), dealer: t.dealer.push(top_dealt(t)), ..t }, e)
    }
}

/// The table and the engine after scoring: where a card has settled, the hand of the
/// side on turn is scored, the outcome checked, and the request cleared.
pub open spec fn score_step(t: Table, e: GameEngine) -> (Table, GameEngine) {
    if t.calculate_result {
        let hand = match t.turn {
            Turn::Player => t.player,
            Turn::Dealer => t.dealer,
        };
        let (e2, turn) = checked(scored(e, hand, t.turn), t.turn);
        (Table { turn, calculate_result: false, ..t }, e2)
    } else {
        (t, e)
    }
}

/// The table, the engine, whether a card was dealt and whether one settled, after the
/// play part of a frame: a deal where one is wanted and can be made, then scoring, then
/// the table's own frame.
pub open spec fn play_steps(t: Table, e: GameEngine, time_delta: int, click: Option<Point>) -> (
    Table,
    GameEngine,
    bool,
    bool,
) {
    let deal = wants_deal(t, e, click) && can_deal(t);
    let (t2, e2) = deal_step(t, e, deal);
    let (t3, e3) = score_step(t2, e2);
    let (t4, settled) = table_step(t3, time_delta);
    (t4, e3, deal, settled)
}

/// `s` and `r` are what the play part of a frame makes of table `t` and engine `e`.
pub open spec fn played_from(
    t: Table,
    e: GameEngine,
    time_delta: int,
    click: Option<Point>,
    s: MainState,
    r: FrameEvents,
) -> bool {
    let (t2, e2, dealt, settled) = play_steps(t, e, time_delta, click);
    &&& s.board@ == t2
    &&& s.engine == e2
    &&& r.dealt == dealt
    &&& r.settled == settled
}

/// Wins and charges after a win is counted: every second win brings a hint charge,
/// every third a handicap charge; counts stop at the top of their range.
pub open spec fn won(wins: u32, charges: (u32, u32)) -> (u32, (u32, u32)) {
    let w = bumped(wins);
    let counted = w != wins;
    (
        w,
        (
            if counted && w % 2 == 0 {
                bumped(charges.0)
            } else {
                charges.0
            },
            if counted && w % 3 == 0 {
                bumped(charges.1)
            } else {
                charges.1
            },
        ),
    )
}

/// Wins and charges once the round of `s` is closed.
pub open spec fn stats_after_round(s: MainState) -> (u32, (u32, u32)) {
    if s.engine.outcome == Outcome::Win {
        won(s.wins, s.power_ups_count)
    } else {
        (s.wins, s.power_ups_count)
    }
}

/// `s` is a session whose round was just closed from `s0`: the stats counted, a new
/// round on table `t` behind the menu.
pub open spec fn closed_into(s0: MainState, t: Table, s: MainState) -> bool {
    &&& fresh_table(t)
    &&& s.status == GameStatus::Menu
    &&& (s.wins, s.power_ups_count) == stats_after_round(s0)
    &&& s.hint_range.is_none()
    &&& s.time_till_game_over == TIME_TILL_GAME_OVER
    &&& s.time_till_menu == TIME_TILL_MENU
}

/// One frame of play from `s0` to `s`, with events `r`. First the clocks: once the round
/// is decided the result screen counts down, then the menu clock; when both have run
/// out the round is closed and a new one set up. Then the play steps run on the table
/// and engine that the clocks left.
pub open spec fn frame_played(
    s0: MainState,
    time_delta: u64,
    click: Option<Point>,
    s: MainState,
    r: FrameEvents,
) -> bool {
    let closing = s0.time_till_game_over == 0 && s0.time_till_menu == 0;
    &&& r.round_over == closing
    &&& if closing {
        exists|t: Table|
            #[trigger] closed_into(s0, t, s) && played_from(
                t,
                initial_engine(),
                time_delta as int,
                click,
                s,
                r,
            )
    } else {
        &&& played_from(s0.board@, s0.engine, time_delta as int, click, s, r)
        &&& s.status == s0.status
        &&& s.wins == s0.wins
        &&& s.power_ups_count == s0.power_ups_count
        &&& s.hint_range == s0.hint_range
        &&& s.time_till_game_over == if s0.engine.game_over {
            time_left(s0.time_till_game_over, time_delta)
        } else {
            s0.time_till_game_over
        }
        &&& s.time_till_menu == if s0.time_till_game_over == 0 {
            time_left(s0.time_till_menu, time_delta)
        } else {
            s0.time_till_menu
        }
    }
}

/// The session after a handicap charge was spent.
pub open spec fn after_handicap(s: MainState) -> MainState {
    MainState {
        engine: GameEngine { dealer_handicap_active: true, ..s.engine },
        power_ups_count: (s.power_ups_count.0, (s.power_ups_count.1 - 1) as u32),
        ..s
    }
}

/// A handicap charge is spent now: there is one and the handicap is off.
pub open spec fn handicap_spendable(s: MainState) -> bool {
    s.power_ups_count.1 > 0 && !s.engine.dealer_handicap_active
}

/// A hint charge is spent now: there is one, the hint is unused and the pack has a card.
pub open spec fn hint_spendable(s: MainState) -> bool {
    s.power_ups_count.0 > 0 && s.engine.hint == HintStatus::Unused && s.board.deck@.len() > 0
}

/// The session after a hint charge was spent with the given offset.
pub open spec fn after_hint(s: MainState, offset: int) -> MainState {
    MainState {
        hint_range: Some(hint_range_for(name_points(s.board.deck@.last().name@)->0 as int, offset)),
        engine: GameEngine { hint: HintStatus::Active, ..s.engine },
        power_ups_count: ((s.power_ups_count.0 - 1) as u32, s.power_ups_count.1),
        ..s
    }
}

/// The screen after a click on the menu: PLAY starts playing, HELP opens the help screen.
pub open spec fn menu_choice(status: GameStatus, click: Option<Point>) -> GameStatus {
    match click {
        Some(p) => if over_label(p, MENU_PLAY_X as int, MENU_PLAY_Y as int) {
            GameStatus::Play
        } else if over_label(p, MENU_HELP_X as int, MENU_HELP_Y as int) {
            GameStatus::Help
        } else {
            status
        },
        None => status,
    }
}

/// The screen after a click on the help screen: BACK returns to the menu.
pub open spec fn help_choice(status: GameStatus, click: Option<Point>) -> GameStatus {
    match click {
        Some(p) => if over_label(p, HELP_BACK_X as int, HELP_BACK_Y as int) {
            GameStatus::Menu
        } else {
            status
        },
        None => status,
    }
}

/// The game session: the round in play, the screen, and the stats kept across rounds.
pub struct MainState {
    pub board: Board,
    pub engine: GameEngine,
    pub status: GameStatus,
    pub wins: u32,
    /// Hint charges and handicap charges.
    pub power_ups_count: (u32, u32),
    pub hint_range: Option<(u32, u32)>,
    /// Microseconds until the result screen, counting once the round is decided.
    pub time_till_game_over: u64,
    /// Microseconds that the result screen has left.
    pub time_till_menu: u64,
}

impl MainState {
    pub open spec fn wf(&self) -> bool {
        &&& self.board.wf()
        &&& self.board.dealed_cards_player@.len() <= MAX_HAND_LEN
        &&& self.board.dealed_cards_dealer@.len() <= MAX_HAND_LEN
    }

    /// A session on the menu screen with the stats read at start-up: wins, hint charges
    /// and handicap charges.
    pub fn new(stats: (u32, u32, u32)) -> (r: MainState)
        ensures
            r.wf(),
            r.board.turn == Turn::Player,
            r.board.deck@.len() == 52,
            names_distinct(r.board.deck@),
            all_standard(r.board.deck@),
            fresh_table(r.board@),
            r.board.dealed_cards_player@.len() == 0,
            r.board.dealed_cards_dealer@.len() == 0,
            r.engine == initial_engine(),
            r.status == GameStatus::Menu,
            r.wins == stats.0,
            r.power_ups_count == (stats.1, stats.2),
            r.hint_range.is_none(),
            r.time_till_game_over == TIME_TILL_GAME_OVER,
            r.time_till_menu == TIME_TILL_MENU,
    {
        MainState {
            board: Board::new(),
            engine: GameEngine::new(),
            status: GameStatus::Menu,
            wins: stats.0,
            power_ups_count: (stats.1, stats.2),
            hint_range: None,
            time_till_game_over: TIME_TILL_GAME_OVER,
            time_till_menu: TIME_TILL_MENU,
        }
    }

    /// The line to store: wins, hint charges and handicap charges.
    pub fn stats_line(&self) -> (r: String)
        ensures
            r@ == stats_text(self.wins as nat, self.power_ups_count.0 as nat, self.power_ups_count.1 as nat),
    {
        format_stats(self.wins, self.power_ups_count.0, self.power_ups_count.1)
    }
}


impl MainState {
    /// Deals the top card to the side on turn, when the pack has one and the hand has
    /// room; tells whether it did.
    fn deal_card(&mut self) -> (dealt: bool)
        requires
            old(self).wf(),
        ensures
            final(self).wf(),
            dealt == can_deal(old(self).board@),
            final(self).board@ == deal_step(old(self).board@, old(self).engine, dealt).0,
            final(self).engine == old(self).engine,
            final(self).status == old(self).status,
            final(self).wins == old(self).wins,
            final(self).power_ups_count == old(self).power_ups_count,
            final(self).hint_range == old(self).hint_range,
            final(self).time_till_game_over == old(self).time_till_game_over,
            final(self).time_till_menu == old(self).time_till_menu,
    {
        let room = match self.board.turn {
            Turn::Player => self.board.dealed_cards_player.len() < MAX_HAND_LEN,
            Turn::Dealer => self.board.dealed_cards_dealer.len() < MAX_HAND_LEN,
        };
        if self.board.deck.len() == 0 || !room {
            return false;
        }
        let dealed_card = self.board.deck.deal_card();
        self.board.set_card(dealed_card);
        true
    }

    pub fn mouse_over_play(&self, mouse_position: Point) -> (r: bool)
        ensures
            r == over_label(mouse_position, MENU_PLAY_X as int, MENU_PLAY_Y as int),
    {
        mouse_over_label(mouse_position, MENU_PLAY_X, MENU_PLAY_Y)
    }

    pub fn mouse_over_help(&self, mouse_position: Point) -> (r: bool)
        ensures
            r == over_label(mouse_position, MENU_HELP_X as int, MENU_HELP_Y as int),
    {
        mouse_over_label(mouse_position, MENU_HELP_X, MENU_HELP_Y)
    }

    pub fn mouse_over_back(&self, mouse_position: Point) -> (r: bool)
        ensures
            r == over_label(mouse_position, HELP_BACK_X as int, HELP_BACK_Y as int),
    {
        mouse_over_label(mouse_position, HELP_BACK_X, HELP_BACK_Y)
    }

    pub fn mouse_over_deck(&self, mouse_position: Point) -> (r: bool)
        ensures
            r == over_deck(mouse_position),
    {
        let matches_horizontal = mouse_position.x >= DECK_X - CARD_HALF_WIDTH * PIXEL
            && mouse_position.x <= DECK_X + CARD_HALF_WIDTH * PIXEL;
        let matches_vertical = mouse_position.y >= DECK_Y - CARD_HALF_HEIGHT * PIXEL
            && mouse_position.y <= DECK_Y + CARD_HALF_HEIGHT * PIXEL;
        matches_horizontal && matches_vertical
    }

    /// Counts a win: every second win brings a hint charge, every third a handicap
    /// charge. Counts stop at the top of their range.
    pub fn increase_stats(&mut self)
        ensures
            (final(self).wins, final(self).power_ups_count) == won(old(self).wins, old(self).power_ups_count),
            final(self).board == old(self).board,
            final(self).engine == old(self).engine,
            final(self).status == old(self).status,
            final(self).hint_range == old(self).hint_range,
            final(self).time_till_game_over == old(self).time_till_game_over,
            final(self).time_till_menu == old(self).time_till_menu,
    {
        if self.wins == u32::MAX {
            return;
        }
        self.wins = self.wins + 1;
        if self.wins % 2 == 0 {
            self.power_ups_count.0 = bump(self.power_ups_count.0);
        }
        if self.wins % 3 == 0 {
            self.power_ups_count.1 = bump(self.power_ups_count.1);
        }
    }

    /// Closes the round: a win is counted, and a new round waits behind the menu.
    pub fn reset(&mut self)
        ensures
            final(self).wf(),
            closed_into(*old(self), final(self).board@, *final(self)),
            final(self).engine == initial_engine(),
    {
        if self.engine.outcome == Outcome::Win {
            self.increase_stats();
        }
        self.board = Board::new();
        self.engine = GameEngine::new();
        self.status = GameStatus::Menu;
        self.time_till_game_over = TIME_TILL_GAME_OVER;
        self.time_till_menu = TIME_TILL_MENU;
        self.hint_range = None;
    }

    /// When a card has settled, scores the hand of the side on turn and checks the
    /// outcome.
    pub fn update_score(&mut self)
        requires
            old(self).wf(),
        ensures
            final(self).wf(),
            (final(self).board@, final(self).engine) == score_step(old(self).board@, old(self).engine),
            !old(self).board.calculate_result ==> *final(self) == *old(self),
            final(self).status == old(self).status,
            final(self).wins == old(self).wins,
            final(self).power_ups_count == old(self).power_ups_count,
            final(self).hint_range == old(self).hint_range,
            final(self).time_till_game_over == old(self).time_till_game_over,
            final(self).time_till_menu == old(self).time_till_menu,
    {
        if self.board.calculate_result {
            let turn = self.board.turn;
            let r = match turn {
                Turn::Player => self.engine.score(&self.board.dealed_cards_player, turn),
                Turn::Dealer => self.engine.score(&self.board.dealed_cards_dealer, turn),
            };
            assert(r is Ok);
            self.engine.check_outcome(&mut self.board.turn);
            self.board.calculate_result = false;
        }
    }

    /// Spends a handicap charge, if there is one and the handicap is not yet on.
    pub fn use_handicap(&mut self)
        ensures
            handicap_spendable(*old(self)) ==> *final(self) == after_handicap(*old(self)),
            !handicap_spendable(*old(self)) ==> *final(self) == *old(self),
    {
        if self.power_ups_count.1 == 0 {
            return;
        }
        if !self.engine.dealer_handicap_active {
            self.engine.dealer_handicap_active = true;
            self.power_ups_count.1 = self.power_ups_count.1 - 1;
        }
    }

    /// Spends a hint charge, if there is one, the hint is unused this round and the pack
    /// has a card: the hint names a range of four around the next card's points,
    /// shifted down by `offset`.
    pub fn use_hint_with_offset(&mut self, offset: u32)
        requires
            old(self).wf(),
        ensures
            final(self).wf(),
            hint_spendable(*old(self)) ==> name_points(old(self).board.deck@.last().name@) is Some
                && *final(self) == after_hint(*old(self), offset as int),
            !hint_spendable(*old(self)) ==> *final(self) == *old(self),
    {
        if self.power_ups_count.0 == 0 {
            return;
        }
        if self.engine.hint != HintStatus::Unused || self.board.deck.len() == 0 {
            return;
        }
        let top = self.board.deck.get_top_card();
        proof {
            self.board.deck.lemma_top_ranked();
        }
        let top_card_points = match top.get_points() {
            Ok(p) => p,
            Err(_) => {
                return;
            },
        };
        self.engine.hint = HintStatus::Active;
        self.power_ups_count.0 = self.power_ups_count.0 - 1;
        let low: i64 = top_card_points as i64 - offset as i64;
        if low + HINT_RANGE_SIZE as i64 > 11 {
            self.hint_range = Some((7, 11));
        } else if low < 2 {
            self.hint_range = Some((2, 6));
        } else {
            self.hint_range = Some((low as u32, (low + HINT_RANGE_SIZE as i64) as u32));
        }
    }

    /// Spends a hint charge as `use_hint_with_offset` does, with a random offset below
    /// `HINT_RANGE_SIZE`.
    pub fn use_hint(&mut self)
        requires
            old(self).wf(),
        ensures
            final(self).wf(),
            hint_spendable(*old(self)) ==> exists|offset: int|
                0 <= offset < HINT_RANGE_SIZE && *final(self) == #[trigger] after_hint(*old(self), offset),
            !hint_spendable(*old(self)) ==> *final(self) == *old(self),
    {
        if self.power_ups_count.0 == 0 || self.engine.hint != HintStatus::Unused {
            return;
        }
        let offset = random_below(HINT_RANGE_SIZE);
        self.use_hint_with_offset(offset);
    }

    /// Acts on a key: standing hands the turn to the dealer; the others spend a charge.
    pub fn key_down(&mut self, key: KeyAction)
        requires
            old(self).wf(),
        ensures
            final(self).wf(),
            key == KeyAction::Stand ==> *final(self) == (MainState {
                board: Board { turn: Turn::Dealer, ..old(self).board },
                ..*old(self)
            }),
            key == KeyAction::Hint && hint_spendable(*old(self)) ==> exists|offset: int|
                0 <= offset < HINT_RANGE_SIZE && *final(self) == #[trigger] after_hint(*old(self), offset),
            key == KeyAction::Handicap && handicap_spendable(*old(self)) ==> *final(self) == after_handicap(
                *old(self),
            ),
            (key == KeyAction::Hint && !hint_spendable(*old(self))) || (key == KeyAction::Handicap
                && !handicap_spendable(*old(self))) ==> *final(self) == *old(self),
    {
        match key {
            KeyAction::Stand => {
                self.board.turn = Turn::Dealer;
            },
            KeyAction::Hint => self.use_hint(),
            KeyAction::Handicap => self.use_handicap(),
        }
    }

    /// The menu: a click on PLAY starts playing, a click on HELP opens the help screen.
    pub fn update_menu(&mut self, click: Option<Point>)
        ensures
            final(self).status == menu_choice(old(self).status, click),
            *final(self) == (MainState { status: final(self).status, ..*old(self) }),
    {
        if let Some(p) = click {
            if self.mouse_over_play(p) {
                self.status = GameStatus::Play;
            } else if self.mouse_over_help(p) {
                self.status = GameStatus::Help;
            }
        }
    }

    /// The help screen: a click on BACK returns to the menu.
    pub fn update_help(&mut self, click: Option<Point>)
        ensures
            final(self).status == help_choice(old(self).status, click),
            *final(self) == (MainState { status: final(self).status, ..*old(self) }),
    {
        if let Some(p) = click {
            if self.mouse_over_back(p) {
                self.status = GameStatus::Menu;
            }
        }
    }

    /// One frame of play. First the clocks: once the round is decided the result screen
    /// counts down, then the menu clock, and when that has run out the round is closed
    /// and a new one set up. Then a deal, if the dealer is drawing or the player clicked
    /// the pack; a player's deal uses up an active hint. Then the settled hand is scored,
    /// and last the cards run their frame.
    pub fn update_game(&mut self, time_delta: u64, click: Option<Point>) -> (r: FrameEvents)
        requires
            old(self).wf(),
            time_delta <= MAX_TIME_STEP,
        ensures
            final(self).wf(),
            frame_played(*old(self), time_delta, click, *final(self), r),
    {
        let ghost s0 = *self;
        let mut round_over = false;
        if self.time_till_game_over == 0 {
            if self.time_till_menu > 0 {
                self.time_till_menu = if self.time_till_menu > time_delta {
                    self.time_till_menu - time_delta
                } else {
                    0
                };
            } else {
                self.reset();
                round_over = true;
            }
        } else if self.engine.game_over {
            self.time_till_game_over = if self.time_till_game_over > time_delta {
                self.time_till_game_over - time_delta
            } else {
                0
            };
        }

        let ghost t1 = self.board@;
        let ghost e1 = self.engine;
        let mut dealt = false;
        if self.board.turn == Turn::Dealer {
            if !self.engine.game_over && !self.board.card_moving {
                dealt = self.deal_card();
            }
        } else if let Some(p) = click {
            if !self.engine.game_over && self.mouse_over_deck(p) && !self.board.card_moving {
                dealt = self.deal_card();
                if dealt && self.engine.hint == HintStatus::Active {
                    self.engine.hint = HintStatus::Exhausted;
                }
            }
        }

        self.update_score();
        let settled = self.board.update(time_delta);
        let r = FrameEvents { dealt, settled, round_over };
        assert(played_from(t1, e1, time_delta as int, click, *self, r));
        proof {
            if round_over {
                assert(closed_into(s0, t1, *self));
            }
        }
        r
    }

    /// One frame on whichever screen is showing.
    pub fn update(&mut self, time_delta: u64, click: Option<Point>) -> (r: FrameEvents)
        requires
            old(self).wf(),
            time_delta <= MAX_TIME_STEP,
        ensures
            final(self).wf(),
            old(self).status != GameStatus::Play ==> r == (FrameEvents {
                dealt: false,
                settled: false,
                round_over: false,
            }),
            old(self).status == GameStatus::Menu ==> *final(self) == (MainState {
                status: menu_choice(old(self).status, click),
                ..*old(self)
            }),
            old(self).status == GameStatus::Help ==> *final(self) == (MainState {
                status: help_choice(old(self).status, click),
                ..*old(self)
            }),
            old(self).status == GameStatus::Play ==> frame_played(*old(self), time_delta, click, *final(self), r),
    {
        match self.status {
            GameStatus::Menu => {
                self.update_menu(click);
                FrameEvents { dealt: false, settled: false, round_over: false }
            },
            GameStatus::Help => {
                self.update_help(click);
                FrameEvents { dealt: false, settled: false, round_over: false }
            },
            GameStatus::Play => self.update_game(time_delta, click),
        }
    }
}

} // verus!
