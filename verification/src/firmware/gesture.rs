//! What a whole run of samples of the switch amounts to.

use vstd::prelude::*;

use crate::firmware::button::{
    elapsed, nanos_of, tap_event, ButtonEvent, ButtonState, DEBOUNCE_MS, LONG_PRESS_MS,
    TAP_WINDOW_MS,
};

verus! {

/// The level of the pin at a moment.
pub struct Sample {
    pub raw_pressed: bool,
    pub now: u128,
}

/// The state that `samples`, taken in one after the other, leave behind.
pub open spec fn run_state(button: ButtonState, samples: Seq<Sample>) -> ButtonState
    decreases samples.len(),
{
    if samples.len() == 0 {
        button
    } else {
        run_state(button, samples.drop_last()).next(
            samples.last().raw_pressed,
            samples.last().now,
        )
    }
}

/// The events that `samples` bring about, in order.
pub open spec fn run_events(button: ButtonState, samples: Seq<Sample>) -> Seq<ButtonEvent>
    decreases samples.len(),
{
    if samples.len() == 0 {
        Seq::empty()
    } else {
        let before = run_events(button, samples.drop_last());
        match run_state(button, samples.drop_last()).event_on(
            samples.last().raw_pressed,
            samples.last().now,
        ) {
            Some(event) => before.push(event),
            None => before,
        }
    }
}

/// The sample shows the debounced level, or a change that comes too soon after
/// the last edge to be believed.
pub open spec fn steady(button: ButtonState, sample: Sample) -> bool {
    sample.raw_pressed == button.pressed || sample.now - button.last_edge < DEBOUNCE_MS * 1_000_000
}

/// Neither the long press nor the gesture in progress is due at `now`.
pub open spec fn nothing_due(button: ButtonState, now: u128) -> bool {
    !button.hold_due(now) && !button.taps_due(now)
}

/// The time between two moments is their difference, however long the clock has been
/// running, and nothing where they stand the other way round; a millisecond is a
/// million nanoseconds.
pub proof fn law_time_is_the_difference_of_moments(now: u128, then: u128, ms: u64)
    ensures
        now >= then ==> elapsed(now, then) == now - then,
        now <= then ==> elapsed(now, then) == 0,
        nanos_of(ms) == ms * 1_000_000,
{
}

/// A moment that lies `by` later, if it is one at all.
pub open spec fn later(moment: Option<u128>, by: u128) -> Option<u128> {
    match moment {
        Some(m) => Some((m + by) as u128),
        None => None,
    }
}

/// Only differences of time matter: a button whose moments all lie `by` later, sampled
/// that much later, reports the same and is left in the same state but that much later.
pub proof fn law_only_time_differences_matter(
    button: ButtonState,
    raw_pressed: bool,
    now: u128,
    by: u128,
)
    requires
        now + by <= u128::MAX,
        button.last_edge + by <= u128::MAX,
        button.press_start matches Some(start) ==> start + by <= u128::MAX,
        button.last_release matches Some(release) ==> release + by <= u128::MAX,
    ensures
        ({
            let shifted = ButtonState {
                pressed: button.pressed,
                last_edge: (button.last_edge + by) as u128,
                press_start: later(button.press_start, by),
                tap_count: button.tap_count,
                last_release: later(button.last_release, by),
                long_press_fired: button.long_press_fired,
            };
            let after = button.next(raw_pressed, now);
            let shifted_after = shifted.next(raw_pressed, (now + by) as u128);
            &&& shifted.event_on(raw_pressed, (now + by) as u128) == button.event_on(
                raw_pressed,
                now,
            )
            &&& shifted_after.pressed == after.pressed
            &&& shifted_after.last_edge == after.last_edge + by
            &&& shifted_after.press_start == later(after.press_start, by)
            &&& shifted_after.tap_count == after.tap_count
            &&& shifted_after.last_release == later(after.last_release, by)
            &&& shifted_after.long_press_fired == after.long_press_fired
        }),
{
}

/// The switch follows the pin: a change of level is taken over exactly if the last one
/// lies at least the debounce time back, a press is timed from the moment it is taken
/// over, and one that is let go within the long-press time, unless it was reported as a
/// long press, adds a tap to the gesture. The counter of taps stops at its limit.
pub proof fn law_switch_follows_the_pin(button: ButtonState, raw_pressed: bool, now: u128)
    ensures
        ({
            let after = button.next(raw_pressed, now);
            let event = button.event_on(raw_pressed, now);
            let taken = raw_pressed != button.pressed && now - button.last_edge >= DEBOUNCE_MS
                * 1_000_000;
            let tapped = taken && !raw_pressed && !button.long_press_fired
                && button.press_start is Some && now - button.press_start->0 < LONG_PRESS_MS
                * 1_000_000;
            &&& after.pressed == (if taken {
                raw_pressed
            } else {
                button.pressed
            })
            &&& after.last_edge == (if taken {
                now
            } else {
                button.last_edge
            })
            &&& taken && raw_pressed ==> after.press_start == Some(now)
            &&& taken && !raw_pressed ==> after.press_start is None
            &&& !taken ==> after.press_start == button.press_start
            &&& event is Some ==> after.tap_count == 0 && after.last_release is None
            &&& event is None && tapped ==> after.last_release == Some(now) && (after.tap_count
                == button.tap_count + 1 || after.tap_count == button.tap_count == 255)
            &&& event is None && !tapped ==> after.tap_count == button.tap_count
                && after.last_release == button.last_release
            &&& after.long_press_fired == (event == Some(ButtonEvent::LongPress) || (
            button.long_press_fired && !(taken && raw_pressed)))
        }),
{
}

/// Taps are reported exactly when there are some, the button is up once this sample has
/// been taken in, no tap is added by it, and the tap window has passed since the last
/// one: one as a single tap, two as a double tap, more as a triple tap.
pub proof fn law_taps_are_reported_exactly(button: ButtonState, raw_pressed: bool, now: u128)
    ensures
        ({
            let event = button.event_on(raw_pressed, now);
            let old_enough = now - button.last_edge >= DEBOUNCE_MS * 1_000_000;
            let stays_up = !button.pressed && !(raw_pressed && old_enough);
            let goes_up_untapped = button.pressed && !raw_pressed && old_enough && (
            button.long_press_fired || button.press_start is None || now - button.press_start->0
                >= LONG_PRESS_MS * 1_000_000);
            let due = button.tap_count > 0 && button.last_release is Some && now
                - button.last_release->0 >= TAP_WINDOW_MS * 1_000_000 && (stays_up
                || goes_up_untapped);
            &&& event == Some(ButtonEvent::SingleTap) <==> due && button.tap_count == 1
            &&& event == Some(ButtonEvent::DoubleTap) <==> due && button.tap_count == 2
            &&& event == Some(ButtonEvent::TripleTap) <==> due && button.tap_count >= 3
        }),
{
}

/// The end of the tap window is noticed exactly when taps were counted, the button is
/// up and the window has passed since the last one; it ends the gesture and changes
/// nothing else.
pub proof fn law_tap_window_ends_the_gesture(button: ButtonState, now: u128)
    ensures
        ({
            let event = button.timeout_event(now);
            let after = button.after_timeout(now);
            let due = button.tap_count > 0 && !button.pressed && button.last_release is Some && now
                - button.last_release->0 >= TAP_WINDOW_MS * 1_000_000;
            &&& event == Some(ButtonEvent::SingleTap) <==> due && button.tap_count == 1
            &&& event == Some(ButtonEvent::DoubleTap) <==> due && button.tap_count == 2
            &&& event == Some(ButtonEvent::TripleTap) <==> due && button.tap_count >= 3
            &&& event != Some(ButtonEvent::LongPress)
            &&& !due ==> after == button
            &&& due ==> after.tap_count == 0 && after.last_release is None && after.pressed
                == button.pressed && after.last_edge == button.last_edge && after.press_start
                == button.press_start && after.long_press_fired == button.long_press_fired
        }),
{
}

/// Contact bounce is ignored: a change of level within the debounce window has
/// the effect of a sample at the level that holds.
pub proof fn law_bounce_is_ignored(button: ButtonState, raw_pressed: bool, now: u128)
    requires
        button.wf(),
        now - button.last_edge < DEBOUNCE_MS * 1_000_000,
    ensures
        button.next(raw_pressed, now) == button.next(button.pressed, now),
        button.event_on(raw_pressed, now) == button.event_on(button.pressed, now),
        button.next(raw_pressed, now).pressed == button.pressed,
{
}

/// A change of level is believed exactly if the debounce window has passed since
/// the last edge. It is then the debounced level, and its moment the last edge;
/// else level, edge and press stay as they were, and a change that is not
/// believed has no effect but that the tap window may end.
pub proof fn law_debounce(button: ButtonState, raw_pressed: bool, now: u128)
    ensures
        ({
            let believed = raw_pressed != button.pressed && now - button.last_edge >= DEBOUNCE_MS
                * 1_000_000;
            let after = button.next(raw_pressed, now);
            &&& believed ==> after.pressed == raw_pressed && after.last_edge == now
            &&& !believed ==> {
                &&& after.pressed == button.pressed
                &&& after.last_edge == button.last_edge
                &&& after.press_start == button.press_start
            }
            &&& raw_pressed != button.pressed && !believed ==> {
                &&& button.event_on(raw_pressed, now) == button.timeout_event(now)
                &&& after == button.after_timeout(now)
            }
        }),
{
}

/// Every event ends the gesture: no tap that was counted before it can count
/// towards a later one.
pub proof fn law_event_ends_gesture(button: ButtonState, raw_pressed: bool, now: u128)
    requires
        button.event_on(raw_pressed, now) is Some,
    ensures
        button.next(raw_pressed, now).tap_count == 0,
        button.next(raw_pressed, now).last_release is None,
{
}

/// A tap gesture is reported only while the button is up and once the window
/// for another tap has passed since the last one.
pub proof fn law_taps_wait_for_the_window(button: ButtonState, raw_pressed: bool, now: u128)
    requires
        button.wf(),
        button.event_on(raw_pressed, now) is Some,
        button.event_on(raw_pressed, now) != Some(ButtonEvent::LongPress),
    ensures
        !button.next(raw_pressed, now).pressed,
        button.tap_count > 0,
        button.last_release matches Some(release) && now - release >= TAP_WINDOW_MS * 1_000_000,
        button.event_on(raw_pressed, now) == Some(tap_event(button.tap_count as nat)),
{
}

/// A long press is reported exactly when a press that has not been reported yet
/// has lasted for the long-press time and the button is still held, never on the
/// release.
pub proof fn law_long_press_exactly(button: ButtonState, raw_pressed: bool, now: u128)
    ensures
        button.event_on(raw_pressed, now) == Some(ButtonEvent::LongPress) <==> {
            &&& button.pressed
            &&& raw_pressed
            &&& !button.long_press_fired
            &&& button.press_start matches Some(start)
            &&& now - start >= LONG_PRESS_MS * 1_000_000
        },
        button.event_on(raw_pressed, now) == Some(ButtonEvent::LongPress) ==> button.next(
            raw_pressed,
            now,
        ).long_press_fired,
{
}

/// Samples can be taken in two stretches: the second starts where the first
/// left off.
pub proof fn law_runs_join(button: ButtonState, first: Seq<Sample>, second: Seq<Sample>)
    ensures
        run_state(button, first + second) == run_state(run_state(button, first), second),
        run_events(button, first + second) == run_events(button, first) + run_events(
            run_state(button, first),
            second,
        ),
    decreases second.len(),
{
    if second.len() == 0 {
        assert(first + second == first);
    } else {
        law_runs_join(button, first, second.drop_last());
        assert((first + second).drop_last() == first + second.drop_last());
        assert((first + second).last() == second.last());
    }
}

/// As long as no edge is believed and nothing is due, samples change nothing
/// and bring no event.
pub proof fn law_waiting_is_silent(button: ButtonState, samples: Seq<Sample>)
    requires
        forall|i: int|
            0 <= i < samples.len() ==> steady(button, #[trigger] samples[i]) && nothing_due(
                button,
                samples[i].now,
            ),
    ensures
        run_state(button, samples) == button,
        run_events(button, samples) == Seq::<ButtonEvent>::empty(),
    decreases samples.len(),
{
    if samples.len() > 0 {
        assert forall|i: int| 0 <= i < samples.drop_last().len() implies steady(
            button,
            #[trigger] samples.drop_last()[i],
        ) && nothing_due(button, samples.drop_last()[i].now) by {
            assert(samples.drop_last()[i] == samples[i]);
        }
        law_waiting_is_silent(button, samples.drop_last());
        assert(samples.last() == samples[samples.len() - 1]);
    }
}

/// A long press is reported once per hold: while the button stays down after
/// the report, nothing more is reported.
pub proof fn law_hold_reported_once(button: ButtonState, samples: Seq<Sample>)
    requires
        button.pressed,
        button.long_press_fired,
        forall|i: int| 0 <= i < samples.len() ==> (#[trigger] samples[i]).raw_pressed,
    ensures
        run_events(button, samples) == Seq::<ButtonEvent>::empty(),
        run_state(button, samples) == button,
{
    law_waiting_is_silent(button, samples);
}

/// Letting go after a reported long press counts no tap.
pub proof fn law_hold_ends_without_tap(button: ButtonState, now: u128)
    requires
        button.wf(),
        button.pressed,
        button.long_press_fired,
    ensures
        button.event_on(false, now) is None,
        button.next(false, now).tap_count == 0,
{
}

/// A button that is left alone, with no gesture in progress, reports nothing.
pub proof fn law_idle_is_silent(button: ButtonState, samples: Seq<Sample>)
    requires
        !button.pressed,
        button.tap_count == 0,
        forall|i: int| 0 <= i < samples.len() ==> !(#[trigger] samples[i]).raw_pressed,
    ensures
        run_events(button, samples) == Seq::<ButtonEvent>::empty(),
        run_state(button, samples) == button,
{
    law_waiting_is_silent(button, samples);
}

/// One press and release: the moment the button goes down, the samples while it
/// is held, the moment it goes up, and the samples while it is up again.
pub struct Tap {
    pub down: u128,
    pub held: Seq<Sample>,
    pub up: u128,
    pub rest: Seq<Sample>,
}

impl Tap {
    /// The tap as the pin shows it.
    pub open spec fn samples(self) -> Seq<Sample> {
        seq![Sample { raw_pressed: true, now: self.down }] + self.held + seq![
            Sample { raw_pressed: false, now: self.up },
        ] + self.rest
    }

    /// The tap comes after the edge at `edge` has settled, lasts longer than
    /// contact bounce and less than a long press; in between the pin shows only
    /// the level that holds, or bounce, and the samples after the release come
    /// within the window for another tap.
    pub open spec fn follows(self, edge: u128) -> bool {
        &&& self.down - edge >= DEBOUNCE_MS * 1_000_000
        &&& DEBOUNCE_MS * 1_000_000 <= self.up - self.down < LONG_PRESS_MS * 1_000_000
        &&& forall|i: int|
            0 <= i < self.held.len() ==> {
                let sample = #[trigger] self.held[i];
                &&& sample.now - self.down < LONG_PRESS_MS * 1_000_000
                &&& sample.raw_pressed || sample.now - self.down < DEBOUNCE_MS * 1_000_000
            }
        &&& forall|i: int|
            0 <= i < self.rest.len() ==> {
                let sample = #[trigger] self.rest[i];
                &&& sample.now - self.up < TAP_WINDOW_MS * 1_000_000
                &&& !sample.raw_pressed || sample.now - self.up < DEBOUNCE_MS * 1_000_000
            }
    }
}

/// The samples of several taps in a row.
pub open spec fn tap_samples(taps: Seq<Tap>) -> Seq<Sample>
    decreases taps.len(),
{
    if taps.len() == 0 {
        Seq::empty()
    } else {
        tap_samples(taps.drop_last()) + taps.last().samples()
    }
}

/// Each tap follows the release of the one before it, the first follows the
/// edge at `edge`.
pub open spec fn taps_in_a_row(edge: u128, taps: Seq<Tap>) -> bool
    decreases taps.len(),
{
    taps.len() > 0 ==> {
        &&& taps_in_a_row(edge, taps.drop_last())
        &&& taps.last().follows(
            if taps.len() == 1 {
                edge
            } else {
                taps[taps.len() - 2].up
            },
        )
    }
}

/// What the counter shows after `count` taps.
pub open spec fn counted(count: nat) -> nat {
    if count < u8::MAX {
        count
    } else {
        u8::MAX as nat
    }
}

/// One tap on top of a gesture adds one to it and reports nothing.
proof fn lemma_one_tap(button: ButtonState, tap: Tap)
    requires
        button.wf(),
        !button.pressed,
        tap.follows(button.last_edge),
    ensures
        run_events(button, tap.samples()) == Seq::<ButtonEvent>::empty(),
        run_state(button, tap.samples()).wf(),
        !run_state(button, tap.samples()).pressed,
        run_state(button, tap.samples()).tap_count == counted(button.tap_count as nat + 1),
        run_state(button, tap.samples()).last_edge == tap.up,
        run_state(button, tap.samples()).last_release == Some(tap.up),
{
    reveal_with_fuel(run_state, 2);
    reveal_with_fuel(run_events, 2);
    let press = seq![Sample { raw_pressed: true, now: tap.down }];
    let release = seq![Sample { raw_pressed: false, now: tap.up }];
    assert(press.drop_last() == Seq::<Sample>::empty());
    assert(release.drop_last() == Seq::<Sample>::empty());
    let down = run_state(button, press);
    assert(down == button.next(true, tap.down));
    assert(run_events(button, press) == Seq::<ButtonEvent>::empty());
    law_waiting_is_silent(down, tap.held);
    law_runs_join(button, press, tap.held);
    let up = run_state(down, release);
    assert(up == down.next(false, tap.up));
    assert(run_events(down, release) == Seq::<ButtonEvent>::empty());
    law_runs_join(button, press + tap.held, release);
    law_waiting_is_silent(up, tap.rest);
    law_runs_join(button, press + tap.held + release, tap.rest);
}

/// Taps in a row add up and report nothing while they last.
proof fn lemma_taps_add_up(button: ButtonState, taps: Seq<Tap>)
    requires
        button.wf(),
        !button.pressed,
        button.tap_count == 0,
        taps_in_a_row(button.last_edge, taps),
    ensures
        run_events(button, tap_samples(taps)) == Seq::<ButtonEvent>::empty(),
        run_state(button, tap_samples(taps)).wf(),
        !run_state(button, tap_samples(taps)).pressed,
        run_state(button, tap_samples(taps)).tap_count == counted(taps.len()),
        run_state(button, tap_samples(taps)).last_edge == (if taps.len() == 0 {
            button.last_edge
        } else {
            taps.last().up
        }),
        taps.len() > 0 ==> run_state(button, tap_samples(taps)).last_release == Some(
            taps.last().up,
        ),
    decreases taps.len(),
{
    if taps.len() > 0 {
        let fewer = taps.drop_last();
        lemma_taps_add_up(button, fewer);
        let before = run_state(button, tap_samples(fewer));
        lemma_one_tap(before, taps.last());
        law_runs_join(button, tap_samples(fewer), taps.last().samples());
    }
}

/// One, two, or any larger number of taps in a row, followed by a pause of the tap
/// window, are reported as one single, double or triple tap, and as nothing else;
/// after that the button is up with no gesture in progress.
pub proof fn law_taps_make_one_gesture(button: ButtonState, taps: Seq<Tap>, end: u128)
    requires
        button.wf(),
        !button.pressed,
        button.tap_count == 0,
        taps.len() > 0,
        taps_in_a_row(button.last_edge, taps),
        end - taps.last().up >= TAP_WINDOW_MS * 1_000_000,
    ensures
        run_events(
            button,
            tap_samples(taps).push(Sample { raw_pressed: false, now: end }),
        ) == seq![tap_event(taps.len())],
        ({
            let after = run_state(
                button,
                tap_samples(taps).push(Sample { raw_pressed: false, now: end }),
            );
            &&& after.wf()
            &&& !after.pressed
            &&& after.tap_count == 0
            &&& after.last_edge == taps.last().up
        }),
{
    lemma_taps_add_up(button, taps);
    let pause = Sample { raw_pressed: false, now: end };
    assert(tap_samples(taps).push(pause).drop_last() == tap_samples(taps));
}

/// A pause of the tap window, in which the button is seen to be up, separates two
/// gestures: each is reported with the taps of its own.
pub proof fn law_pause_separates_gestures(
    button: ButtonState,
    first: Seq<Tap>,
    pause: u128,
    second: Seq<Tap>,
    end: u128,
)
    requires
        button.wf(),
        !button.pressed,
        button.tap_count == 0,
        first.len() > 0,
        second.len() > 0,
        taps_in_a_row(button.last_edge, first),
        pause - first.last().up >= TAP_WINDOW_MS * 1_000_000,
        taps_in_a_row(first.last().up, second),
        end - second.last().up >= TAP_WINDOW_MS * 1_000_000,
    ensures
        run_events(
            button,
            tap_samples(first).push(Sample { raw_pressed: false, now: pause }) + tap_samples(
                second,
            ).push(Sample { raw_pressed: false, now: end }),
        ) == seq![tap_event(first.len()), tap_event(second.len())],
{
    let before = tap_samples(first).push(Sample { raw_pressed: false, now: pause });
    let after = tap_samples(second).push(Sample { raw_pressed: false, now: end });
    law_taps_make_one_gesture(button, first, pause);
    law_taps_make_one_gesture(run_state(button, before), second, end);
    law_runs_join(button, before, after);
    assert(run_events(button, before + after) == seq![tap_event(first.len())] + seq![
        tap_event(second.len()),
    ]);
}

/// A press that is held for the long-press time is reported as one long press,
/// whatever taps came before it and however long it is held after that.
pub proof fn law_hold_makes_one_long_press(
    button: ButtonState,
    down: u128,
    held: Seq<Sample>,
    due: u128,
    after: Seq<Sample>,
)
    requires
        button.wf(),
        !button.pressed,
        down - button.last_edge >= DEBOUNCE_MS * 1_000_000,
        forall|i: int|
            0 <= i < held.len() ==> {
                let sample = #[trigger] held[i];
                &&& sample.now - down < LONG_PRESS_MS * 1_000_000
                &&& sample.raw_pressed || sample.now - down < DEBOUNCE_MS * 1_000_000
            },
        due - down >= LONG_PRESS_MS * 1_000_000,
        forall|i: int| 0 <= i < after.len() ==> (#[trigger] after[i]).raw_pressed,
    ensures
        run_events(
            button,
            seq![Sample { raw_pressed: true, now: down }] + held + seq![
                Sample { raw_pressed: true, now: due },
            ] + after,
        ) == seq![ButtonEvent::LongPress],
{
    reveal_with_fuel(run_state, 2);
    reveal_with_fuel(run_events, 2);
    let press = seq![Sample { raw_pressed: true, now: down }];
    let reached = seq![Sample { raw_pressed: true, now: due }];
    assert(press.drop_last() == Seq::<Sample>::empty());
    assert(reached.drop_last() == Seq::<Sample>::empty());
    let pressed = run_state(button, press);
    assert(pressed == button.next(true, down));
    assert(run_events(button, press) == Seq::<ButtonEvent>::empty());
    law_waiting_is_silent(pressed, held);
    law_runs_join(button, press, held);
    let fired = run_state(pressed, reached);
    assert(fired == pressed.next(true, due));
    assert(run_events(pressed, reached) == seq![ButtonEvent::LongPress]);
    law_runs_join(button, press + held, reached);
    law_hold_reported_once(fired, after);
    law_runs_join(button, press + held + reached, after);
}

} // verus!
