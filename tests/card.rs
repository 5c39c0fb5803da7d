use blackjack::card::{all, name_of, Card, CardFlipState, CardMoveState, FlipAnimation, FlipAnimationState, Point, Vector, clamp};

#[test]
fn get_points_2() {
    let card = Card::new("2_of_something");

    let points = card.get_points().unwrap();

    assert_eq!(points, 2, "a 2 should give 2 points");
}

#[test]
fn get_points_3() {
    let card = Card::new("3_of_something");

    let points = card.get_points().unwrap();

    assert_eq!(points, 3, "a 3 should give 3 points");
}

#[test]
fn get_points_4() {
    let card = Card::new("4_of_something");

    let points = card.get_points().unwrap();

    assert_eq!(points, 4, "a 4 should give 4 points");
}

#[test]
fn get_points_5() {
    let card = Card::new("5_of_something");

    let points = card.get_points().unwrap();

    assert_eq!(points, 5, "a 5 should give 5 points");
}

#[test]
fn get_points_6() {
    let card = Card::new("6_of_something");

    let points = card.get_points().unwrap();

    assert_eq!(points, 6, "a 6 should give 6 points");
}

#[test]
fn get_points_7() {
    let card = Card::new("7_of_something");

    let points = card.get_points().unwrap();

    assert_eq!(points, 7, "a 7 should give 7 points");
}

#[test]
fn get_points_8() {
    let card = Card::new("8_of_something");

    let points = card.get_points().unwrap();

    assert_eq!(points, 8, "a 8 should give 8 points");
}

#[test]
fn get_points_9() {
    let card = Card::new("9_of_something");

    let points = card.get_points().unwrap();

    assert_eq!(points, 9, "a 9 should give 9 points");
}

#[test]
fn get_points_10() {
    let card = Card::new("10_of_something");

    let points = card.get_points().unwrap();

    assert_eq!(points, 10, "a 10 should give 10 points");
}

#[test]
fn get_points_jack() {
    let card = Card::new("jack_of_something");

    let points = card.get_points().unwrap();

    assert_eq!(points, 10, "jack should give 10 points");
}

#[test]
fn get_points_queen() {
    let card = Card::new("queen_of_something");

    let points = card.get_points().unwrap();

    assert_eq!(points, 10, "queen should give 10 points");
}

#[test]
fn get_points_king() {
    let card = Card::new("king_of_something");

    let points = card.get_points().unwrap();

    assert_eq!(points, 10, "king should give 10 points");
}

#[test]
fn get_points_ace() {
    let card = Card::new("ace_of_something");

    let points = card.get_points().unwrap();

    assert_eq!(points, 11, "ace should give 11 points");
}

#[test]
#[should_panic]
fn get_points_invalid_card_name() {
    let card = Card::new("some invalid name");

    let _ = card.get_points().unwrap();
}

#[test]
fn is_an_ace_correct_case() {
    let card = Card::new("ace_of_something");

    assert!(card.is_an_ace(), "card should have been an ace");
}

#[test]
#[should_panic]
fn is_an_ace_wrong_case() {
    let card = Card::new("not an ace");

    assert!(card.is_an_ace(), "card should not have been an ace");
}

#[test]
fn all_should_return_52_cards() {
    assert_eq!(all().len(), 52);
}

#[test]
fn get_points_of_empty_name_is_an_error() {
    let card = Card::new("");
    let err = card.get_points().unwrap_err();
    assert_eq!(err.description(), "Invalid card name!");
    assert!(!card.is_an_ace());
}

#[test]
fn pack_order_and_names() {
    let cards = all();
    assert_eq!(cards[0].name, "ace_of_clubs");
    assert_eq!(cards[1].name, "ace_of_diamonds");
    assert_eq!(cards[4].name, "2_of_clubs");
    assert_eq!(cards[36].name, "10_of_clubs");
    assert_eq!(cards[51].name, "king_of_spades");
    assert_eq!(name_of(43), "jack_of_spades");
    for i in 0..cards.len() {
        for j in (i + 1)..cards.len() {
            assert_ne!(cards[i].name, cards[j].name);
        }
        assert!(cards[i].get_points().is_ok());
    }
}

#[test]
fn clamp_keeps_values_in_range() {
    assert_eq!(clamp(5, 0, 10), 5);
    assert_eq!(clamp(-3, 0, 10), 0);
    assert_eq!(clamp(12, 0, 10), 10);
}

#[test]
fn flip_animation_runs_forward_then_back() {
    let mut a = FlipAnimation::new(300_000);
    a.update(100_000);
    assert_eq!(a.state, FlipAnimationState::Stopped);
    assert_eq!(a.progress, 0);

    a.state = FlipAnimationState::Started;
    a.update(100_000);
    assert_eq!(a.progress, 100_000);
    assert_eq!(a.scale_x_milli(), 666);
    a.update(250_000);
    assert_eq!(a.progress, 300_000);
    assert_eq!(a.direction, -1);
    assert_eq!(a.state, FlipAnimationState::BeforeFlip);
    assert_eq!(a.scale_x_milli(), 0);
    a.state = FlipAnimationState::AfterFlip;
    a.update(200_000);
    assert_eq!(a.progress, 100_000);
    assert_eq!(a.state, FlipAnimationState::AfterFlip);
    a.update(200_000);
    assert_eq!(a.progress, 0);
    assert_eq!(a.direction, 1);
    assert_eq!(a.state, FlipAnimationState::Stopped);
    assert_eq!(a.scale_x_milli(), 1000);
}

#[test]
fn card_travels_stops_and_flips_once() {
    let mut card = Card::new("7_of_hearts");
    let dest = Point { x: 100, y: 50 };
    let step = Vector { x: 60, y: 30 };

    card.update(10_000, step, dest);
    assert_eq!(card.position, Point { x: 60, y: 30 });
    assert_eq!(card.move_state, CardMoveState::Moving);
    assert!(!card.flipped);

    card.update(10_000, step, dest);
    assert_eq!(card.position, dest);
    assert_eq!(card.move_state, CardMoveState::Stopped);
    assert!(card.flipped);
    assert_eq!(card.animation.state, FlipAnimationState::Started);
    assert_eq!(card.flip_state, CardFlipState::Back);

    card.update(400_000, step, dest);
    assert_eq!(card.flip_state, CardFlipState::Front);
    assert_eq!(card.animation.state, FlipAnimationState::AfterFlip);

    card.update(400_000, step, dest);
    assert_eq!(card.animation.state, FlipAnimationState::Stopped);
    card.update(10_000, step, dest);
    assert_eq!(card.animation.state, FlipAnimationState::Stopped);
    assert_eq!(card.flip_state, CardFlipState::Front);
}

#[test]
fn get_points_of_unknown_rank_names_the_error() {
    let card = Card::new("x_of_spades");
    let err = card.get_points().unwrap_err();
    assert_eq!(err.description(), "Invalid card name!");
}
