use pulse::firmware::button::{
    millis, passed, ButtonEvent, ButtonState, DEBOUNCE_MS, LONG_PRESS_MS, TAP_WINDOW_MS,
};

const MS: u128 = 1_000_000;

/// Samples the pin every ten milliseconds; `presses` are the times (ms) between
/// which it is down. Gives the events with the times (ms) they came at.
fn events(presses: &[(u128, u128)], until: u128) -> Vec<(u128, ButtonEvent)> {
    let mut button = ButtonState::new(0);
    let mut seen = Vec::new();
    let mut t = 0;
    while t <= until {
        let raw = presses.iter().any(|(down, up)| *down <= t && t < *up);
        if let Some(event) = button.update(raw, t * MS) {
            seen.push((t, event));
        }
        t += 10;
    }
    seen
}

#[test]
fn times_are_those_of_the_device() {
    assert_eq!((DEBOUNCE_MS, TAP_WINDOW_MS, LONG_PRESS_MS), (50, 300, 2000));
    assert_eq!(millis(300), 300 * MS);
    assert!(passed(350 * MS, 300 * MS, 50));
    assert!(!passed(350 * MS - 1, 300 * MS, 50));
    assert!(!passed(0, 300 * MS, 50));
    assert!(passed(0, 300 * MS, 0));
}

#[test]
fn one_tap_is_a_single_tap() {
    assert_eq!(events(&[(100, 200)], 5000), vec![(500, ButtonEvent::SingleTap)]);
}

#[test]
fn two_taps_are_a_double_tap() {
    assert_eq!(events(&[(100, 200), (300, 400)], 5000), vec![(700, ButtonEvent::DoubleTap)]);
}

#[test]
fn three_and_more_taps_are_a_triple_tap() {
    let three = [(100, 200), (300, 400), (500, 600)];
    assert_eq!(events(&three, 5000), vec![(900, ButtonEvent::TripleTap)]);
    let five = [(100, 200), (300, 400), (500, 600), (700, 800), (900, 1000)];
    assert_eq!(events(&five, 5000), vec![(1300, ButtonEvent::TripleTap)]);
}

#[test]
fn a_pause_separates_gestures() {
    assert_eq!(
        events(&[(100, 200), (600, 700), (800, 900)], 5000),
        vec![(500, ButtonEvent::SingleTap), (1200, ButtonEvent::DoubleTap)]
    );
}

#[test]
fn a_hold_is_reported_once_and_counts_no_tap() {
    assert_eq!(events(&[(100, 9000)], 12000), vec![(2100, ButtonEvent::LongPress)]);
}

#[test]
fn a_hold_discards_the_taps_before_it() {
    assert_eq!(events(&[(100, 200), (300, 4000)], 8000), vec![(2300, ButtonEvent::LongPress)]);
}

#[test]
fn a_hold_just_short_of_long_is_a_tap() {
    assert_eq!(events(&[(100, 2090)], 8000), vec![(2390, ButtonEvent::SingleTap)]);
}

#[test]
fn bounce_is_ignored() {
    // The contact opens and closes several times within the debounce window.
    assert_eq!(
        events(&[(100, 110), (120, 130), (140, 250), (260, 270)], 5000),
        vec![(550, ButtonEvent::SingleTap)]
    );
}

#[test]
fn a_press_right_after_the_start_is_bounce() {
    let mut button = ButtonState::new(0);
    assert_eq!(button.update(true, 49 * MS), None);
    assert!(!button.pressed);
    assert_eq!(button.update(true, 50 * MS), None);
    assert!(button.pressed);
    assert_eq!(button.press_start, Some(50 * MS));
}

#[test]
fn a_button_left_alone_is_silent() {
    assert_eq!(events(&[], 10000), vec![]);
}

#[test]
fn tap_timeout_reports_once() {
    let mut button = ButtonState::new(0);
    button.update(true, 100 * MS);
    button.update(false, 200 * MS);
    assert_eq!(button.tap_count, 1);
    assert_eq!(button.check_tap_timeout(500 * MS - 1), None);
    assert_eq!(button.check_tap_timeout(500 * MS), Some(ButtonEvent::SingleTap));
    assert_eq!(button.check_tap_timeout(501 * MS), None);
    assert_eq!(button.last_release, None);
}

#[test]
fn any_number_of_taps_is_a_triple_tap() {
    for taps in [255u32, 256, 257, 600] {
        let mut button = ButtonState::new(0);
        let mut t = 0;
        for _ in 0..taps {
            t += 60;
            assert_eq!(button.update(true, t * MS), None);
            t += 60;
            assert_eq!(button.update(false, t * MS), None);
        }
        assert_eq!(button.tap_count, 255);
        assert_eq!(button.update(false, (t + 300) * MS - 1), None);
        assert_eq!(button.update(false, (t + 300) * MS), Some(ButtonEvent::TripleTap));
        assert_eq!(button.tap_count, 0);
    }
}

#[test]
fn edges_within_the_debounce_time_change_nothing() {
    let mut button = ButtonState::new(0);
    button.update(true, 100 * MS);
    let before = button;
    assert_eq!(button.update(false, 150 * MS - 1), None);
    assert_eq!(button, before);
    assert_eq!(button.update(false, 150 * MS), None);
    assert!(!button.pressed);
}

#[test]
fn a_long_press_needs_the_switch_down_for_its_time() {
    let mut button = ButtonState::new(0);
    button.update(true, 100 * MS);
    assert_eq!(button.update(true, 2100 * MS - 1), None);
    let mut released = button;
    assert_eq!(released.update(false, 2100 * MS), None);
    assert_eq!(button.update(true, 2100 * MS), Some(ButtonEvent::LongPress));
    assert_eq!(button.update(true, 4200 * MS), None);
}
