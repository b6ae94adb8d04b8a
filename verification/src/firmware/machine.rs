//! The device's state machine: what a command from the host and what a gesture
//! of the button do to the state and to the LED ring.

use vstd::prelude::*;

use crate::firmware::button::ButtonEvent;
use crate::firmware::led::{
    color_blue, color_green, color_red, color_white_dim, color_yellow, LedMode, RGB8,
};

verus! {

/// Period of the red blinking that shows an error (ms).
pub const ERROR_BLINK_MS: u32 = 500;

/// Length of the blue flash that confirms an answer (ms).
pub const FLASH_MS: u32 = 200;

/// Top-level device states.
#[derive(Debug, Clone, Copy, PartialEq, Eq, Structural)]
pub enum State {
    Idle,
    Working,
    Done,
    NeedsInput,
    Error,
}

/// Commands received over USB serial.
#[derive(Debug, Clone, Copy, PartialEq, Eq, Structural)]
pub enum SerialCommand {
    Working,
    Done,
    Input,
    Idle,
    Error,
}

/// The state that a command asks for.
pub open spec fn commanded(cmd: SerialCommand) -> State {
    match cmd {
        SerialCommand::Working => State::Working,
        SerialCommand::Done => State::Done,
        SerialCommand::Input => State::NeedsInput,
        SerialCommand::Idle => State::Idle,
        SerialCommand::Error => State::Error,
    }
}

/// How the ring shows a state.
pub open spec fn state_mode(state: State) -> LedMode {
    match state {
        State::Idle => LedMode::Solid(color_white_dim()),
        State::Working => LedMode::Solid(color_red()),
        State::Done => LedMode::Solid(color_green()),
        State::NeedsInput => LedMode::Pulse(color_yellow()),
        State::Error => LedMode::Blink(color_red(), ERROR_BLINK_MS),
    }
}

/// The gesture approves or rejects.
pub open spec fn is_answer(event: ButtonEvent) -> bool {
    event == ButtonEvent::SingleTap || event == ButtonEvent::DoubleTap
}

/// The state after a gesture: an answer ends `Done`, every tap answers
/// `NeedsInput`, a long press cancels `Working`, any gesture acknowledges
/// `Error`, and nothing moves `Idle`.
pub open spec fn answered(state: State, event: ButtonEvent) -> State {
    match state {
        State::Done => if is_answer(event) {
            State::Idle
        } else {
            State::Done
        },
        State::NeedsInput => if event == ButtonEvent::LongPress {
            State::NeedsInput
        } else {
            State::Working
        },
        State::Working => if event == ButtonEvent::LongPress {
            State::Idle
        } else {
            State::Working
        },
        State::Error => State::Idle,
        State::Idle => State::Idle,
    }
}

/// A gesture is passed on as keystrokes where it means something to the agent:
/// an answer in `Done`, a cancellation in `Working`, anything in `NeedsInput`
/// and `Idle`.
pub open spec fn types_keys(state: State, event: ButtonEvent) -> bool {
    match state {
        State::Done => is_answer(event),
        State::NeedsInput => true,
        State::Working => event == ButtonEvent::LongPress,
        State::Error => false,
        State::Idle => true,
    }
}

/// What the ring is told after a gesture: a flash after an answer in `Done`,
/// else the look of the new state.
pub open spec fn answered_mode(state: State, event: ButtonEvent) -> LedMode {
    if state == State::Done && is_answer(event) {
        LedMode::Flash(color_blue(), FLASH_MS)
    } else {
        state_mode(answered(state, event))
    }
}

/// Process a serial command in the current state and return the new state +
/// LED mode.
pub fn handle_serial(state: State, cmd: SerialCommand) -> (next: (State, LedMode))
    ensures
        next.0 == commanded(cmd),
        next.1 == state_mode(next.0),
{
    match (state, cmd) {
        // Any state + ERROR -> Error
        (_, SerialCommand::Error) => (State::Error, LedMode::Blink(color_red(), ERROR_BLINK_MS)),
        // Any state + IDLE -> Idle
        (_, SerialCommand::Idle) => (State::Idle, LedMode::Solid(color_white_dim())),
        // Idle + WORKING -> Working
        (State::Idle, SerialCommand::Working) => (State::Working, LedMode::Solid(color_red())),
        // Working + DONE -> Done
        (State::Working, SerialCommand::Done) => (State::Done, LedMode::Solid(color_green())),
        // Working + INPUT -> NeedsInput
        (State::Working, SerialCommand::Input) => (
            State::NeedsInput,
            LedMode::Pulse(color_yellow()),
        ),
        // Allow WORKING from any state (daemon may re-send)
        (_, SerialCommand::Working) => (State::Working, LedMode::Solid(color_red())),
        // Allow DONE from any state as a fallback
        (_, SerialCommand::Done) => (State::Done, LedMode::Solid(color_green())),
        // Allow INPUT from any state as a fallback
        (_, SerialCommand::Input) => (State::NeedsInput, LedMode::Pulse(color_yellow())),
    }
}

/// Process a button event in the current state.  Returns (new_state, led_mode)
/// and a flag indicating whether HID keystrokes should be sent.
pub fn handle_button(state: State, event: ButtonEvent) -> (next: (State, LedMode, bool))
    ensures
        next.0 == answered(state, event),
        next.1 == answered_mode(state, event),
        next.2 == types_keys(state, event),
{
    match state {
        State::Done => match event {
            // Done + SingleTap -> approve -> Idle
            ButtonEvent::SingleTap => (State::Idle, LedMode::Flash(color_blue(), FLASH_MS), true),
            // Done + DoubleTap -> reject -> Idle
            ButtonEvent::DoubleTap => (State::Idle, LedMode::Flash(color_blue(), FLASH_MS), true),
            _ => (state, LedMode::Solid(color_green()), false),
        },
        State::NeedsInput => match event {
            // NeedsInput + SingleTap -> approve -> Working
            ButtonEvent::SingleTap => (State::Working, LedMode::Solid(color_red()), true),
            // NeedsInput + DoubleTap -> reject -> Working
            ButtonEvent::DoubleTap => (State::Working, LedMode::Solid(color_red()), true),
            // NeedsInput + TripleTap -> security scan -> Working
            ButtonEvent::TripleTap => (State::Working, LedMode::Solid(color_red()), true),
            // NeedsInput + LongPress -> explain -> stay in NeedsInput
            ButtonEvent::LongPress => (State::NeedsInput, LedMode::Pulse(color_yellow()), true),
        },
        State::Working => match event {
            // Working + LongPress -> cancel -> Idle
            ButtonEvent::LongPress => (State::Idle, LedMode::Solid(color_white_dim()), true),
            _ => (state, LedMode::Solid(color_red()), false),
        },
        // Any button press in Error -> acknowledge -> Idle
        State::Error => (State::Idle, LedMode::Solid(color_white_dim()), false),
        // In Idle, button presses have no state effect but keystrokes are still
        // sent (useful if the host has not sent a command yet).
        State::Idle => (State::Idle, LedMode::Solid(color_white_dim()), true),
    }
}

/// Every state looks different on the ring.
pub proof fn law_states_look_different(a: State, b: State)
    requires
        a != b,
    ensures
        state_mode(a) != state_mode(b),
{
}

/// Only the host can bring about `Done`, `NeedsInput` and `Error`: a gesture
/// stays in the state, or leads to `Working` or `Idle`.
pub proof fn law_gestures_only_answer(state: State, event: ButtonEvent)
    ensures
        answered(state, event) == state || answered(state, event) == State::Working || answered(
            state,
            event,
        ) == State::Idle,
{
}

/// A gesture that changes the state is passed on as keystrokes, but for the
/// acknowledgement of an error.
pub proof fn law_transitions_are_typed(state: State, event: ButtonEvent)
    requires
        answered(state, event) != state,
    ensures
        types_keys(state, event) <==> state != State::Error,
{
}

/// Every command leads to the state that it names, and to no other.
pub proof fn law_commands_name_their_state(cmd: SerialCommand)
    ensures
        commanded(cmd) == State::Working <==> cmd == SerialCommand::Working,
        commanded(cmd) == State::Done <==> cmd == SerialCommand::Done,
        commanded(cmd) == State::NeedsInput <==> cmd == SerialCommand::Input,
        commanded(cmd) == State::Idle <==> cmd == SerialCommand::Idle,
        commanded(cmd) == State::Error <==> cmd == SerialCommand::Error,
{
}

/// Idle is dim white, work is red, work done is green, a question pulses yellow, and an
/// error blinks red twice a second.
pub proof fn law_looks_of_the_states(state: State)
    ensures
        state == State::Idle ==> state_mode(state) == LedMode::Solid(RGB8 { r: 30, g: 30, b: 30 }),
        state == State::Working ==> state_mode(state) == LedMode::Solid(
            RGB8 { r: 200, g: 0, b: 0 },
        ),
        state == State::Done ==> state_mode(state) == LedMode::Solid(RGB8 { r: 0, g: 180, b: 0 }),
        state == State::NeedsInput ==> state_mode(state) == LedMode::Pulse(
            RGB8 { r: 200, g: 160, b: 0 },
        ),
        state == State::Error ==> state_mode(state) == LedMode::Blink(
            RGB8 { r: 200, g: 0, b: 0 },
            500,
        ),
{
}

/// Where a gesture leads: to `Idle` from `Idle` and `Error`, by an answer to `Done` and
/// by a hold in `Working`; to `Working` by any tap there or in `NeedsInput`; a hold in
/// `NeedsInput`, and anything but an answer in `Done`, leads nowhere else.
pub proof fn law_where_gestures_lead(state: State, event: ButtonEvent)
    ensures
        ({
            let hold = event == ButtonEvent::LongPress;
            let answer = event == ButtonEvent::SingleTap || event == ButtonEvent::DoubleTap;
            let to = answered(state, event);
            &&& to == State::Idle <==> state == State::Idle || state == State::Error || (state
                == State::Done && answer) || (state == State::Working && hold)
            &&& to == State::Working <==> !hold && (state == State::Working || state
                == State::NeedsInput)
            &&& to == State::NeedsInput <==> state == State::NeedsInput && hold
            &&& to == State::Done <==> state == State::Done && !answer
            &&& to != State::Error
        }),
{
}

/// A gesture is typed in `Idle` and `NeedsInput`, as an answer to `Done`, and as a hold
/// in `Working`, and nowhere else; an answer to `Done` flashes blue for 200 ms, and
/// every other gesture shows the state that it leads to.
pub proof fn law_what_gestures_show_and_type(state: State, event: ButtonEvent)
    ensures
        ({
            let hold = event == ButtonEvent::LongPress;
            let answer = event == ButtonEvent::SingleTap || event == ButtonEvent::DoubleTap;
            &&& types_keys(state, event) <==> state == State::Idle || state == State::NeedsInput
                || (state == State::Done && answer) || (state == State::Working && hold)
            &&& state == State::Done && answer ==> answered_mode(state, event) == LedMode::Flash(
                RGB8 { r: 0, g: 0, b: 200 },
                200,
            )
            &&& !(state == State::Done && answer) ==> answered_mode(state, event) == state_mode(
                answered(state, event),
            )
        }),
{
}

} // verus!
