use blackjack::board;
use blackjack::card::Card;
use blackjack::game_engine::{GameEngine, HintStatus, Outcome};

#[test]
fn check_outcome_player_over_21() {
    let mut engine = GameEngine::new();
    engine.player_score = 22;

    engine.check_outcome(&mut board::Turn::Player);

    assert!(matches!(engine.outcome, Outcome::Lose));
}

#[test]
fn check_outcome_dealer_over_21() {
    let mut engine = GameEngine::new();
    engine.dealer_score = 22;

    engine.check_outcome(&mut board::Turn::Dealer);

    assert!(matches!(engine.outcome, Outcome::Win));
}

#[test]
fn check_outcome_player_has_more_than_dealer() {
    let mut engine = GameEngine::new();
    engine.player_score = 20;
    engine.dealer_score = 18;

    engine.check_outcome(&mut board::Turn::Dealer);

    assert!(matches!(engine.outcome, Outcome::Win));
}

#[test]
fn check_outcome_player_has_less_than_dealer() {
    let mut engine = GameEngine::new();
    engine.player_score = 20;
    engine.dealer_score = 21;

    engine.check_outcome(&mut board::Turn::Dealer);

    assert!(matches!(engine.outcome, Outcome::Lose));
}

#[test]
fn check_outcome_player_and_dealer_equal() {
    let mut engine = GameEngine::new();
    engine.player_score = 19;
    engine.dealer_score = 19;

    engine.check_outcome(&mut board::Turn::Dealer);

    assert!(matches!(engine.outcome, Outcome::Draw));
}

#[test]
fn check_outcome_player_has_21_and_its_players_turn() {
    let mut engine = GameEngine::new();
    engine.player_score = 21;

    let mut turn = board::Turn::Player;
    engine.check_outcome(&mut turn);

    assert!(matches!(turn, board::Turn::Dealer));
}

#[test]
fn score_on_players_turn() {
    let mut engine = GameEngine::new();
    let v: Vec<Card> = vec![Card::new("king_of_diamonds")];

    engine.score(&v, board::Turn::Player).unwrap();

    assert!(engine.player_score > 0);
    assert_eq!(engine.dealer_score, 0);
}

#[test]
fn score_on_dealers_turn() {
    let mut engine = GameEngine::new();
    let v: Vec<Card> = vec![Card::new("7_of_spades")];

    engine.score(&v, board::Turn::Dealer).unwrap();

    assert!(engine.dealer_score > 0);
    assert_eq!(engine.player_score, 0);
}

#[test]
fn score_without_aces() {
    let mut engine = GameEngine::new();
    let v: Vec<Card> = vec![Card::new("king_of_diamonds"), Card::new("6_of_hearts"), Card::new("2_of_clubs")];

    engine.score(&v, board::Turn::Player).unwrap();

    assert_eq!(engine.player_score, 18);
}

#[test]
fn score_ace_should_count_as_one() {
    let mut engine = GameEngine::new();
    let v: Vec<Card> = vec![Card::new("king_of_diamonds"), Card::new("6_of_hearts"), Card::new("ace_of_clubs")];

    engine.score(&v, board::Turn::Player).unwrap();

    assert_eq!(engine.player_score, 17);
}

#[test]
fn score_ace_should_count_as_eleven() {
    let mut engine = GameEngine::new();
    let v: Vec<Card> = vec![Card::new("3_of_diamonds"), Card::new("6_of_hearts"), Card::new("ace_of_clubs")];

    engine.score(&v, board::Turn::Player).unwrap();

    assert_eq!(engine.player_score, 20);
}

#[test]
fn score_with_more_than_one_aces() {
    let mut engine = GameEngine::new();
    let v: Vec<Card> = vec![Card::new("ace_of_diamonds"), Card::new("ace_of_hearts"), Card::new("ace_of_clubs"), Card::new("5_of_spades")];

    engine.score(&v, board::Turn::Player).unwrap();

    assert_eq!(engine.player_score, 18);
}

#[test]
fn new_engine_is_undecided() {
    let engine = GameEngine::new();
    assert_eq!(engine.player_score, 0);
    assert_eq!(engine.dealer_score, 0);
    assert_eq!(engine.hint, HintStatus::Unused);
    assert!(!engine.dealer_handicap_active);
    assert!(!engine.game_over);
    assert_eq!(engine.outcome, Outcome::Undecided);
}

#[test]
fn score_of_empty_hand_is_zero() {
    let mut engine = GameEngine::new();
    engine.player_score = 9;
    engine.score(&Vec::new(), board::Turn::Player).unwrap();
    assert_eq!(engine.player_score, 0);
}

#[test]
fn score_of_two_aces_is_twelve() {
    let mut engine = GameEngine::new();
    let v = vec![Card::new("ace_of_clubs"), Card::new("ace_of_spades")];
    engine.score(&v, board::Turn::Dealer).unwrap();
    assert_eq!(engine.dealer_score, 12);
}

#[test]
fn score_with_unknown_rank_is_an_error_and_changes_nothing() {
    let mut engine = GameEngine::new();
    engine.player_score = 5;
    let v = vec![Card::new("king_of_clubs"), Card::new("zebra")];
    assert!(engine.score(&v, board::Turn::Player).is_err());
    assert_eq!(engine.player_score, 5);
}

#[test]
fn score_twice_gives_the_same_result() {
    let mut engine = GameEngine::new();
    let v = vec![Card::new("ace_of_clubs"), Card::new("9_of_hearts"), Card::new("ace_of_spades")];
    engine.score(&v, board::Turn::Player).unwrap();
    let first = engine.player_score;
    engine.score(&v, board::Turn::Player).unwrap();
    assert_eq!(first, 21);
    assert_eq!(engine.player_score, first);
    assert_eq!(v.len(), 3);
}

#[test]
fn player_bust_loses_on_dealers_turn_too() {
    let mut engine = GameEngine::new();
    engine.player_score = 22;
    engine.dealer_score = 25;
    let mut turn = board::Turn::Dealer;
    engine.check_outcome(&mut turn);
    assert_eq!(engine.outcome, Outcome::Lose);
    assert!(engine.game_over);
}

#[test]
fn handicap_turns_a_loss_into_a_draw() {
    let mut engine = GameEngine::new();
    engine.player_score = 19;
    engine.dealer_score = 20;
    engine.dealer_handicap_active = true;
    engine.check_outcome(&mut board::Turn::Dealer);
    assert_eq!(engine.outcome, Outcome::Draw);
    assert_eq!(engine.dealer_score, 20);
}

#[test]
fn dealer_below_seventeen_keeps_drawing() {
    let mut engine = GameEngine::new();
    engine.player_score = 20;
    engine.dealer_score = 16;
    let mut turn = board::Turn::Dealer;
    engine.check_outcome(&mut turn);
    assert_eq!(engine.outcome, Outcome::Undecided);
    assert!(!engine.game_over);
    assert_eq!(turn, board::Turn::Dealer);
}

#[test]
fn natural_blackjack_leaves_outcome_undecided() {
    let mut engine = GameEngine::new();
    engine.player_score = 21;
    engine.dealer_score = 10;
    let mut turn = board::Turn::Player;
    engine.check_outcome(&mut turn);
    assert_eq!(turn, board::Turn::Dealer);
    assert_eq!(engine.outcome, Outcome::Undecided);
    assert!(!engine.game_over);
}
