use plotr::animation::{Animation, TickAction, FRAME_PERIOD};

/// An animation that has been started with one press of the button.
fn started() -> Animation {
    let mut a = Animation::new();
    a.press();
    a
}

#[test]
fn new_animation_is_frozen_before_its_first_frame() {
    let a = Animation::new();
    assert_eq!(a.switch(), 1);
    assert_eq!(a.frame(), 0);
    assert!(a.is_frozen());
}

#[test]
fn frozen_ticks_hold_from_the_start() {
    let mut a = Animation::new();
    assert_eq!(a.tick(), TickAction::Hold);
    assert_eq!(a.tick(), TickAction::Hold);
    assert_eq!(a.frame(), 0);
    assert_eq!(a.switch(), 1);
}

#[test]
fn running_ticks_advance_the_frame() {
    let mut a = started();
    assert_eq!(a.switch(), 0);
    assert!(!a.is_frozen());
    assert_eq!(a.tick(), TickAction::Advance(1));
    assert_eq!(a.tick(), TickAction::Advance(2));
    assert_eq!(a.frame(), 2);
}

#[test]
fn frozen_ticks_hold_the_frame() {
    let mut a = started();
    a.tick();
    a.tick();
    a.press();
    assert!(a.is_frozen());
    assert_eq!(a.switch(), 1);
    assert_eq!(a.tick(), TickAction::Hold);
    assert_eq!(a.tick(), TickAction::Hold);
    assert_eq!(a.frame(), 2);
}

#[test]
fn pressing_twice_restores_the_switch() {
    let mut a = Animation::new();
    a.press();
    a.press();
    assert_eq!(a.switch(), 1);
    assert_eq!(a.frame(), 0);
    assert_eq!(a.tick(), TickAction::Hold);
}

#[test]
fn frame_wraps_after_the_period() {
    let mut a = started();
    for _ in 0..FRAME_PERIOD {
        a.tick();
    }
    assert_eq!(a.frame(), 500);
    assert_eq!(a.tick(), TickAction::Advance(1));
}

#[test]
fn a_full_period_returns_to_the_same_frame() {
    let mut a = started();
    for _ in 0..37 {
        a.tick();
    }
    let start = a.frame();
    for _ in 0..FRAME_PERIOD {
        a.tick();
    }
    assert_eq!(a.frame(), start);
    assert_eq!(start, 37);
}

#[test]
fn consecutive_frames_differ() {
    let mut a = started();
    let mut prev = a.frame();
    for _ in 0..1200 {
        match a.tick() {
            TickAction::Advance(f) => {
                assert_ne!(f, prev);
                assert!(1 <= f && f <= 500);
                prev = f;
            }
            TickAction::Hold => panic!("a running animation held"),
        }
    }
}
