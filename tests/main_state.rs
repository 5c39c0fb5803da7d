use blackjack::board::{Turn, DECK_X, DECK_Y};
use blackjack::card::Point;
use blackjack::game_engine::{HintStatus, Outcome};
use blackjack::main_state::{GameStatus, KeyAction, MainState, PIXEL, TIME_TILL_GAME_OVER, TIME_TILL_MENU};
use blackjack::stats::{format_decimal, format_stats, parse_stats};

#[test]
fn stats_round_trip() {
    let line = format_stats(5, 2, 1);
    assert_eq!(line, "5 2 1");
    assert_eq!(parse_stats(&line), Some((5, 2, 1)));
}

#[test]
fn stats_extremes() {
    assert_eq!(format_decimal(0), "0");
    assert_eq!(format_decimal(4294967295), "4294967295");
    assert_eq!(parse_stats("0 0 0"), Some((0, 0, 0)));
    assert_eq!(parse_stats("4294967295 10 7"), Some((4294967295, 10, 7)));
    assert_eq!(parse_stats("1 2 3 4"), Some((1, 2, 3)));
}

#[test]
fn malformed_stats_are_refused() {
    assert_eq!(parse_stats(""), None);
    assert_eq!(parse_stats("1 2"), None);
    assert_eq!(parse_stats("1  2 3"), None);
    assert_eq!(parse_stats("1 2 3 "), None);
    assert_eq!(parse_stats("1 x 3"), None);
    assert_eq!(parse_stats("1 2 3\n"), None);
    assert_eq!(parse_stats("4294967296 0 0"), None);
    assert_eq!(parse_stats("1 2 3 y"), None);
}

#[test]
fn new_session_starts_on_the_menu() {
    let s = MainState::new((3, 1, 2));
    assert_eq!(s.status, GameStatus::Menu);
    assert_eq!(s.wins, 3);
    assert_eq!(s.power_ups_count, (1, 2));
    assert_eq!(s.stats_line(), "3 1 2");
    assert_eq!(s.time_till_game_over, TIME_TILL_GAME_OVER);
    assert_eq!(s.time_till_menu, TIME_TILL_MENU);
}

#[test]
fn wins_bring_power_ups() {
    let mut s = MainState::new((0, 0, 0));
    s.increase_stats();
    assert_eq!((s.wins, s.power_ups_count), (1, (0, 0)));
    s.increase_stats();
    assert_eq!((s.wins, s.power_ups_count), (2, (1, 0)));
    s.increase_stats();
    assert_eq!((s.wins, s.power_ups_count), (3, (1, 1)));
    s.increase_stats();
    s.increase_stats();
    s.increase_stats();
    assert_eq!((s.wins, s.power_ups_count), (6, (3, 2)));
}

#[test]
fn handicap_spends_one_charge_once() {
    let mut s = MainState::new((0, 0, 2));
    s.use_handicap();
    assert!(s.engine.dealer_handicap_active);
    assert_eq!(s.power_ups_count, (0, 1));
    s.use_handicap();
    assert_eq!(s.power_ups_count, (0, 1));

    let mut none = MainState::new((0, 0, 0));
    none.use_handicap();
    assert!(!none.engine.dealer_handicap_active);
}

#[test]
fn hint_ranges() {
    let mut s = MainState::new((0, 1, 0));
    let points = s.board.deck.get_top_card().get_points().unwrap();
    s.use_hint_with_offset(0);
    assert_eq!(s.engine.hint, HintStatus::Active);
    assert_eq!(s.power_ups_count, (0, 0));
    let expected = if points + 4 > 11 { (7, 11) } else if points < 2 { (2, 6) } else { (points, points + 4) };
    assert_eq!(s.hint_range, Some(expected));
    s.use_hint_with_offset(0);
    assert_eq!(s.power_ups_count, (0, 0));
}

#[test]
fn hint_without_charges_does_nothing() {
    let mut s = MainState::new((0, 0, 0));
    s.use_hint();
    assert_eq!(s.engine.hint, HintStatus::Unused);
    assert_eq!(s.hint_range, None);
}

#[test]
fn random_hint_names_a_window_around_the_card() {
    for _ in 0..20 {
        let mut s = MainState::new((0, 1, 0));
        let points = s.board.deck.get_top_card().get_points().unwrap();
        s.key_down(KeyAction::Hint);
        let (lo, hi) = s.hint_range.unwrap();
        assert_eq!(hi, lo + 4);
        assert!(lo <= points && points <= hi);
        assert!(lo >= 2 && hi <= 11);
    }
}

#[test]
fn stand_hands_the_turn_to_the_dealer() {
    let mut s = MainState::new((0, 0, 0));
    s.key_down(KeyAction::Stand);
    assert_eq!(s.board.turn, Turn::Dealer);
}

#[test]
fn menu_and_help_clicks() {
    let mut s = MainState::new((0, 0, 0));
    s.update_menu(Some(Point { x: 850 * PIXEL, y: 720 * PIXEL }));
    assert_eq!(s.status, GameStatus::Help);
    s.update_help(Some(Point { x: 10 * PIXEL, y: 10 * PIXEL }));
    assert_eq!(s.status, GameStatus::Help);
    s.update_help(Some(Point { x: 1700 * PIXEL, y: 849 * PIXEL }));
    assert_eq!(s.status, GameStatus::Menu);
    s.update_menu(None);
    assert_eq!(s.status, GameStatus::Menu);
    s.update_menu(Some(Point { x: 790 * PIXEL, y: 490 * PIXEL }));
    assert_eq!(s.status, GameStatus::Play);
    assert!(s.mouse_over_deck(Point { x: DECK_X, y: DECK_Y }));
    assert!(!s.mouse_over_deck(Point { x: DECK_X + 76 * PIXEL, y: DECK_Y }));
}

#[test]
fn dealer_plays_out_and_round_closes() {
    let mut s = MainState::new((0, 0, 0));
    s.status = GameStatus::Play;
    s.key_down(KeyAction::Stand);
    let mut deals = 0;
    let mut frames = 0;
    while !s.engine.game_over && frames < 10_000 {
        let ev = s.update(16_667, None);
        if ev.dealt {
            deals += 1;
        }
        frames += 1;
    }
    assert!(s.engine.game_over);
    assert!(deals >= 2);
    assert!(s.engine.dealer_score >= 17);
    assert_ne!(s.engine.outcome, Outcome::Undecided);
    let mut closed = false;
    while frames < 20_000 {
        let ev = s.update(16_667, None);
        frames += 1;
        if ev.round_over {
            closed = true;
            break;
        }
    }
    assert!(closed);
    assert_eq!(s.status, GameStatus::Menu);
    assert_eq!(s.board.deck.len(), 52);
    assert!(!s.engine.game_over);
}

#[test]
fn player_click_on_the_deck_deals() {
    let mut s = MainState::new((0, 0, 0));
    s.status = GameStatus::Play;
    let ev = s.update(16_667, Some(Point { x: 0, y: 0 }));
    assert!(!ev.dealt);
    let ev = s.update(16_667, Some(Point { x: DECK_X, y: DECK_Y }));
    assert!(ev.dealt);
    assert_eq!(s.board.dealed_cards_player.len(), 1);
    assert_eq!(s.board.deck.len(), 51);
    let ev = s.update(16_667, Some(Point { x: DECK_X, y: DECK_Y }));
    assert!(!ev.dealt);
}

#[test]
fn closing_a_won_round_counts_the_win_and_its_charges() {
    let mut s = MainState::new((5, 0, 0));
    s.engine.outcome = Outcome::Win;
    s.reset();
    assert_eq!((s.wins, s.power_ups_count), (6, (1, 1)));
    assert_eq!(s.status, GameStatus::Menu);
    assert_eq!(s.board.deck.len(), 52);
    assert_eq!(s.hint_range, None);
    assert_eq!((s.time_till_game_over, s.time_till_menu), (TIME_TILL_GAME_OVER, TIME_TILL_MENU));
}

#[test]
fn settled_card_is_scored_and_an_active_hint_is_used_up() {
    let mut s = MainState::new((0, 1, 0));
    s.status = GameStatus::Play;
    s.use_hint_with_offset(0);
    assert_eq!(s.engine.hint, HintStatus::Active);
    let ev = s.update(16_667, Some(Point { x: DECK_X, y: DECK_Y }));
    assert!(ev.dealt);
    assert_eq!(s.engine.hint, HintStatus::Exhausted);
    let points = s.board.dealed_cards_player[0].get_points().unwrap();
    let mut settled = false;
    let mut frames = 0;
    while frames < 10_000 {
        let ev = s.update(16_667, None);
        frames += 1;
        assert!(!ev.dealt);
        if ev.settled {
            settled = true;
            break;
        }
    }
    assert!(settled);
    assert!(s.board.calculate_result);
    s.update(16_667, None);
    assert!(!s.board.calculate_result);
    assert_eq!(s.engine.player_score, points);
    assert_eq!(s.board.dealed_cards_player.len(), 1);
    assert_eq!(s.board.dealed_cards_dealer.len(), 0);
}
