use kerfur_display::element::KerfurEyeType;
use kerfur_display::geometry::Point;
use kerfur_display::primitive::Swirl;
use kerfur_display::{KerfurDisplay, KerfurElements, KerfurEmote, KerfurExpression};

#[test]
fn neutral_to_meow_animates_until_exact() {
    let mut kerfur = KerfurDisplay::new((), KerfurEmote::Neutral);
    assert!(!kerfur.is_animating());
    kerfur.set_expression(KerfurEmote::Meow);
    assert!(kerfur.is_animating());
    assert_eq!(kerfur.get_expression(), KerfurEmote::Neutral.into_elements());
    let meow = KerfurEmote::Meow.into_elements();
    let mut frames = 0;
    while kerfur.is_animating() {
        assert_ne!(kerfur.get_expression(), meow);
        kerfur.draw(5000);
        frames += 1;
        assert!(frames < 1000);
    }
    assert!(frames > 1);
    assert_eq!(kerfur.get_expression(), meow);
    assert_eq!(kerfur.get_expression_target(), meow);
    kerfur.draw(5000);
    assert!(!kerfur.is_animating());
    assert_eq!(kerfur.get_expression(), meow);
}

#[test]
fn idle_display_still_lists_shapes() {
    let mut kerfur = KerfurDisplay::new_with_elements(7u8, KerfurElements::new());
    let shapes = kerfur.draw(5000);
    assert_eq!(shapes, KerfurElements::new().draw());
    assert!(!kerfur.is_animating());
    assert_eq!(*kerfur.display(), 7);
    *kerfur.display_mut() = 9;
    assert_eq!(*kerfur.display(), 9);
}

#[test]
fn immediate_expression_keeps_the_target() {
    let mut kerfur = KerfurDisplay::new((), KerfurEmote::Neutral);
    kerfur.set_expression_immediate(KerfurEmote::Blink);
    assert!(kerfur.is_animating());
    assert_eq!(kerfur.get_expression(), KerfurEmote::Blink.into_elements());
    assert_eq!(kerfur.get_expression_target(), KerfurEmote::Neutral.into_elements());
    let mut frames = 0;
    while kerfur.is_animating() {
        kerfur.draw(5000);
        frames += 1;
        assert!(frames < 1000);
    }
    assert_eq!(kerfur.get_expression(), KerfurEmote::Neutral.into_elements());
}

#[test]
fn redirecting_mid_flight_converges_to_the_new_target() {
    let mut kerfur = KerfurDisplay::new((), KerfurEmote::Neutral);
    kerfur.set_expression(KerfurEmote::NeutralUp);
    kerfur.draw(2000);
    kerfur.draw(2000);
    kerfur.set_expression(KerfurEmote::NeutralRight);
    let mut frames = 0;
    while kerfur.is_animating() {
        kerfur.draw(2000);
        frames += 1;
        assert!(frames < 1000);
    }
    assert_eq!(kerfur.get_expression(), KerfurEmote::NeutralRight.into_elements());
}

#[test]
fn setting_the_same_expression_settles_in_one_frame() {
    let mut kerfur = KerfurDisplay::new((), KerfurEmote::Dazed);
    kerfur.set_expression(KerfurEmote::Dazed);
    assert!(kerfur.is_animating());
    kerfur.draw(1);
    assert!(!kerfur.is_animating());
}

#[test]
fn swirl_phase_turns_every_frame_and_wraps() {
    let mut kerfur = KerfurDisplay::new((), KerfurEmote::Neutral);
    assert_eq!(kerfur.swirl_phase(), 0);
    kerfur.draw(0);
    assert_eq!(kerfur.swirl_phase(), 100);
    for _ in 0..62 {
        kerfur.draw(5000);
    }
    assert_eq!(kerfur.swirl_phase(), 6300 - 6283);
}

#[test]
fn one_frame_larger_than_every_distance_snaps_a_swirl_face() {
    let eye = |angle| KerfurEyeType::Swirl(Swirl::new(Point::new(100, 100), angle, 60));
    let start = KerfurElements::new().with_eyes(eye(0), eye(0));
    let target = KerfurElements::new().with_eyes(eye(100), eye(100));
    let mut kerfur = KerfurDisplay::new_with_elements((), start);
    kerfur.set_expression(target);
    kerfur.draw(1_000_000_000);
    assert_eq!(kerfur.get_expression(), target);
    assert!(!kerfur.is_animating());
}
