use indicators::turn_signal::{Light, SignalType, State};

const DARK: [[u8; 5]; 5] = [[0; 5]; 5];

const DOT: [[u8; 5]; 5] = [
    [0, 0, 0, 0, 0],
    [0, 0, 0, 0, 0],
    [0, 0, 1, 0, 0],
    [0, 0, 0, 0, 0],
    [0, 0, 0, 0, 0],
];

const LEFT_ARROW: [[u8; 5]; 5] = [
    [0, 0, 1, 0, 0],
    [0, 1, 0, 0, 0],
    [1, 1, 1, 1, 1],
    [0, 1, 0, 0, 0],
    [0, 0, 1, 0, 0],
];

const RIGHT_ARROW: [[u8; 5]; 5] = [
    [0, 0, 1, 0, 0],
    [0, 0, 0, 1, 0],
    [1, 1, 1, 1, 1],
    [0, 0, 0, 1, 0],
    [0, 0, 1, 0, 0],
];

#[test]
fn starts_lit_and_straight() {
    let state = State::new(25, 55);
    assert_eq!(state.light(), Light::Lit);
    assert_eq!(state.signal(), SignalType::Straight);
}

#[test]
fn straight_on_shows_a_steady_dot() {
    let mut state = State::new(25, 55);
    for _ in 0..200 {
        assert_eq!(state.tick(), DOT);
        assert_eq!(state.light(), Light::Lit);
    }
}

#[test]
fn straight_on_never_counts_even_with_zero_durations() {
    let mut state = State::new(0, 0);
    for _ in 0..10 {
        assert_eq!(state.tick(), DOT);
    }
}

#[test]
fn left_arrow_blinks() {
    let mut state = State::new(3, 2);
    state.set_signal(SignalType::Left);
    let mut shown = Vec::new();
    for _ in 0..10 {
        shown.push(state.tick());
    }
    assert_eq!(
        shown,
        vec![
            LEFT_ARROW, LEFT_ARROW, DARK, DARK, LEFT_ARROW, LEFT_ARROW, LEFT_ARROW, DARK, DARK,
            LEFT_ARROW,
        ]
    );
}

#[test]
fn right_arrow_blinks() {
    let mut state = State::new(1, 1);
    state.set_signal(SignalType::Right);
    assert_eq!(state.tick(), DARK);
    assert_eq!(state.tick(), RIGHT_ARROW);
    assert_eq!(state.tick(), DARK);
    assert_eq!(state.tick(), RIGHT_ARROW);
}

#[test]
fn blink_lengths_of_the_display() {
    let mut state = State::new(25, 55);
    state.set_signal(SignalType::Right);
    let mut lights = Vec::new();
    for _ in 0..160 {
        state.tick();
        lights.push(state.light());
    }
    for (i, light) in lights.iter().enumerate() {
        let place = (i + 1) % 80;
        let expected = if place >= 25 { Light::Unlit } else { Light::Lit };
        assert_eq!(*light, expected, "after {} refreshes", i + 1);
    }
}

#[test]
fn the_same_signal_again_changes_nothing() {
    let mut state = State::new(3, 2);
    state.set_signal(SignalType::Left);
    state.tick();
    state.tick();
    state.set_signal(SignalType::Left);
    assert_eq!(state.tick(), DARK);
    assert_eq!(state.light(), Light::Unlit);
    state.set_signal(SignalType::Left);
    assert_eq!(state.tick(), DARK);
    assert_eq!(state.tick(), LEFT_ARROW);
}

#[test]
fn a_new_signal_starts_a_new_blink() {
    let mut state = State::new(3, 2);
    state.set_signal(SignalType::Left);
    for _ in 0..4 {
        state.tick();
    }
    assert_eq!(state.light(), Light::Unlit);
    state.set_signal(SignalType::Right);
    assert_eq!(state.light(), Light::Lit);
    assert_eq!(state.signal(), SignalType::Right);
    assert_eq!(state.tick(), RIGHT_ARROW);
    assert_eq!(state.tick(), RIGHT_ARROW);
    assert_eq!(state.tick(), DARK);
}

#[test]
fn going_straight_lights_the_dot_at_once() {
    let mut state = State::new(1, 5);
    state.set_signal(SignalType::Left);
    assert_eq!(state.tick(), DARK);
    state.set_signal(SignalType::Straight);
    assert_eq!(state.light(), Light::Lit);
    assert_eq!(state.tick(), DOT);
    assert_eq!(state.tick(), DOT);
}

#[test]
fn a_countdown_of_zero_cannot_be_counted() {
    let mut state = State::new(0, 5);
    assert!(state.can_tick());
    state.set_signal(SignalType::Left);
    assert!(!state.can_tick());
    state.set_signal(SignalType::Straight);
    assert!(state.can_tick());

    let mut state = State::new(2, 0);
    state.set_signal(SignalType::Right);
    assert!(state.can_tick());
    assert_eq!(state.tick(), RIGHT_ARROW);
    assert!(state.can_tick());
    assert_eq!(state.tick(), DARK);
    assert_eq!(state.light(), Light::Unlit);
    assert!(!state.can_tick());
}

#[test]
fn with_durations_above_zero_every_refresh_can_be_counted() {
    let mut state = State::new(1, 1);
    for round in 0..300 {
        let signal = match round % 7 {
            0 => SignalType::Left,
            3 => SignalType::Right,
            5 => SignalType::Straight,
            _ => state.signal(),
        };
        state.set_signal(signal);
        assert!(state.can_tick());
        state.tick();
    }
}
