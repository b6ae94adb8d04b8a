//! Debouncing the switch and telling taps from holds.
//!
//! [`ButtonState::update`] is called on every tick with the level of the pin.
//! A change of level that comes within [`DEBOUNCE_MS`] of the one before it is
//! contact bounce and is ignored. A press that is let go before
//! [`LONG_PRESS_MS`] is a tap; taps that follow each other within
//! [`TAP_WINDOW_MS`] belong to one gesture, which is reported when the window
//! has passed. A press that reaches [`LONG_PRESS_MS`] is reported at once, while
//! the button is still held.

use vstd::prelude::*;

verus! {

/// Debounce window for the mechanical switch.
pub const DEBOUNCE_MS: u64 = 50;

/// Maximum gap between taps to count as a multi-tap gesture.
pub const TAP_WINDOW_MS: u64 = 300;

/// Hold duration to trigger a long-press event.
pub const LONG_PRESS_MS: u64 = 2000;

/// Button events after tap-counting and debounce.
#[derive(Debug, Clone, Copy, PartialEq, Eq, Structural)]
pub enum ButtonEvent {
    SingleTap,
    DoubleTap,
    TripleTap,
    LongPress,
}

/// A number of milliseconds in nanoseconds.
pub open spec fn nanos_of(ms: u64) -> nat {
    ms as nat * 1_000_000
}

/// How long before `now` the moment `then` lies, zero if it lies after `now`.
pub open spec fn elapsed(now: u128, then: u128) -> nat {
    if now >= then {
        (now - then) as nat
    } else {
        0
    }
}

/// The event that a finished gesture of `count` taps stands for.
pub open spec fn tap_event(count: nat) -> ButtonEvent {
    if count == 1 {
        ButtonEvent::SingleTap
    } else if count == 2 {
        ButtonEvent::DoubleTap
    } else {
        ButtonEvent::TripleTap
    }
}

/// A number of milliseconds in nanoseconds.
pub fn millis(ms: u64) -> (nanos: u128)
    ensures
        nanos == nanos_of(ms),
        nanos == ms * 1_000_000,
{
    ms as u128 * 1_000_000
}

/// Whether at least `ms` milliseconds lie between `then` and `now`.
pub fn passed(now: u128, then: u128, ms: u64) -> (yes: bool)
    ensures
        yes == (elapsed(now, then) >= nanos_of(ms)),
        yes == (ms == 0 || now - then >= ms * 1_000_000),
{
    let gone: u128 = if now >= then {
        now - then
    } else {
        0
    };
    gone >= millis(ms)
}

/// The debounced switch and the gesture in progress.
#[derive(Debug, Clone, Copy, PartialEq, Eq, Structural)]
pub struct ButtonState {
    /// true = button is physically pressed (after debounce).
    pub pressed: bool,
    /// When the level last changed (for debounce).
    pub last_edge: u128,
    /// When the current press started.
    pub press_start: Option<u128>,
    /// Number of taps counted so far in the current gesture.
    pub tap_count: u8,
    /// When the last tap was released (for the multi-tap window).
    pub last_release: Option<u128>,
    /// Whether a long press was already reported for the current hold.
    pub long_press_fired: bool,
}

impl ButtonState {
    /// A press is timed from the edge that began it, a gesture has taps exactly
    /// if a last release is on record, and a hold that was reported leaves no
    /// taps behind.
    pub open spec fn wf(self) -> bool {
        &&& self.press_start == (if self.pressed {
            Some(self.last_edge)
        } else {
            None
        })
        &&& self.tap_count > 0 <==> self.last_release is Some
        &&& self.long_press_fired ==> self.tap_count == 0
    }

    /// The pin shows another level than the debounced one, and the last edge is
    /// old enough for it to be believed.
    pub open spec fn edge_accepted(self, raw_pressed: bool, now: u128) -> bool {
        raw_pressed != self.pressed && elapsed(now, self.last_edge) >= nanos_of(DEBOUNCE_MS)
    }

    /// A press that ends at `now` is short enough to be a tap.
    pub open spec fn ends_as_tap(self, now: u128) -> bool {
        &&& self.press_start matches Some(start)
        &&& elapsed(now, start) < nanos_of(LONG_PRESS_MS)
        &&& !self.long_press_fired
    }

    /// The pin shows another level than the debounced one, but too soon after
    /// the last edge to be believed.
    pub open spec fn bounces(self, raw_pressed: bool, now: u128) -> bool {
        raw_pressed != self.pressed && elapsed(now, self.last_edge) < nanos_of(DEBOUNCE_MS)
    }

    /// The state once the level of the pin has been taken in, before any event
    /// is reported.
    pub open spec fn after_edge(self, raw_pressed: bool, now: u128) -> ButtonState {
        if !self.edge_accepted(raw_pressed, now) {
            self
        } else if raw_pressed {
            ButtonState {
                pressed: true,
                last_edge: now,
                press_start: Some(now),
                long_press_fired: false,
                ..self
            }
        } else if self.ends_as_tap(now) {
            ButtonState {
                pressed: false,
                last_edge: now,
                press_start: None,
                tap_count: if self.tap_count < u8::MAX {
                    (self.tap_count + 1) as u8
                } else {
                    u8::MAX
                },
                last_release: Some(now),
                ..self
            }
        } else {
            ButtonState { pressed: false, last_edge: now, press_start: None, ..self }
        }
    }

    /// The button has been held for the long-press time and that has not been
    /// reported yet.
    pub open spec fn hold_due(self, now: u128) -> bool {
        &&& self.pressed
        &&& !self.long_press_fired
        &&& self.press_start matches Some(start)
        &&& elapsed(now, start) >= nanos_of(LONG_PRESS_MS)
    }

    /// The button is up, taps have been counted, and the window for another tap
    /// has passed.
    pub open spec fn taps_due(self, now: u128) -> bool {
        &&& self.tap_count > 0
        &&& !self.pressed
        &&& self.last_release matches Some(release)
        &&& elapsed(now, release) >= nanos_of(TAP_WINDOW_MS)
    }

    /// The same switch with no gesture in progress.
    pub open spec fn without_taps(self) -> ButtonState {
        ButtonState { tap_count: 0, last_release: None, ..self }
    }

    /// The event that the end of the tap window brings about.
    pub open spec fn timeout_event(self, now: u128) -> Option<ButtonEvent> {
        if self.taps_due(now) {
            Some(tap_event(self.tap_count as nat))
        } else {
            None
        }
    }

    /// The state that the end of the tap window leaves behind.
    pub open spec fn after_timeout(self, now: u128) -> ButtonState {
        if self.taps_due(now) {
            self.without_taps()
        } else {
            self
        }
    }

    /// The event that a sample of the pin brings about. During contact bounce
    /// only the tap window is looked at.
    pub open spec fn event_on(self, raw_pressed: bool, now: u128) -> Option<ButtonEvent> {
        let seen = self.after_edge(raw_pressed, now);
        if !self.bounces(raw_pressed, now) && seen.hold_due(now) {
            Some(ButtonEvent::LongPress)
        } else {
            seen.timeout_event(now)
        }
    }

    /// The state that a sample of the pin leaves behind.
    pub open spec fn next(self, raw_pressed: bool, now: u128) -> ButtonState {
        let seen = self.after_edge(raw_pressed, now);
        if !self.bounces(raw_pressed, now) && seen.hold_due(now) {
            ButtonState { long_press_fired: true, ..seen.without_taps() }
        } else {
            seen.after_timeout(now)
        }
    }

    /// A button that is up, with no gesture in progress, from `now` on.
    pub fn new(now: u128) -> (button: ButtonState)
        ensures
            button.wf(),
            !button.pressed,
            button.last_edge == now,
            button.press_start is None,
            button.tap_count == 0,
            button.last_release is None,
            !button.long_press_fired,
    {
        ButtonState {
            pressed: false,
            last_edge: now,
            press_start: None,
            tap_count: 0,
            last_release: None,
            long_press_fired: false,
        }
    }

    /// Call every tick with the current raw pin level (true = pressed / LOW).
    /// Returns an optional ButtonEvent when a gesture is complete. The tap counter
    /// stops at its limit, since three taps and more are all the same.
    pub fn update(&mut self, raw_pressed: bool, now: u128) -> (event: Option<ButtonEvent>)
        ensures
            old(self).wf() ==> final(self).wf(),
            event == old(self).event_on(raw_pressed, now),
            *final(self) == old(self).next(raw_pressed, now),
    {
        if raw_pressed != self.pressed {
            if !passed(now, self.last_edge, DEBOUNCE_MS) {
                return self.check_tap_timeout(now);
            }
            self.last_edge = now;
            self.pressed = raw_pressed;

            if self.pressed {
                self.press_start = Some(now);
                self.long_press_fired = false;
            } else {
                let started = self.press_start;
                self.press_start = None;
                if let Some(start) = started {
                    if !passed(now, start, LONG_PRESS_MS) && !self.long_press_fired {
                        if self.tap_count < u8::MAX {
                            self.tap_count = self.tap_count + 1;
                        }
                        self.last_release = Some(now);
                    }
                }
            }
        }
        if self.pressed && !self.long_press_fired {
            if let Some(start) = self.press_start {
                if passed(now, start, LONG_PRESS_MS) {
                    self.long_press_fired = true;
                    self.tap_count = 0;
                    self.last_release = None;
                    return Some(ButtonEvent::LongPress);
                }
            }
        }
        self.check_tap_timeout(now)
    }

    /// If the tap window has expired, emit the accumulated tap count.
    pub fn check_tap_timeout(&mut self, now: u128) -> (event: Option<ButtonEvent>)
        ensures
            old(self).wf() ==> final(self).wf(),
            event == old(self).timeout_event(now),
            *final(self) == old(self).after_timeout(now),
    {
        if self.tap_count > 0 && !self.pressed {
            if let Some(release_time) = self.last_release {
                if passed(now, release_time, TAP_WINDOW_MS) {
                    let count: u8 = self.tap_count;
                    self.tap_count = 0;
                    self.last_release = None;
                    return match count {
                        1 => Some(ButtonEvent::SingleTap),
                        2 => Some(ButtonEvent::DoubleTap),
                        _ => Some(ButtonEvent::TripleTap),
                    };
                }
            }
        }
        None
    }
}

} // verus!
