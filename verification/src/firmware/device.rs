//! The device as a whole: one turn of its main loop takes in what the serial
//! line brought and the level of the switch, and says what is to be sent, typed
//! and shown.

use vstd::prelude::*;
use vstd::utf8::*;

use crate::firmware::button::{millis, nanos_of, ButtonEvent, ButtonState};
use crate::firmware::hid::{
    hid_send_event, key_strokes, keys_for, law_gestures_type_their_words, typed_text, HidStep,
};
use crate::firmware::led::{
    color_blue, color_white_dim, render_leds, LedMode, NUM_LEDS, RGB8,
};
use crate::firmware::machine::{
    answered, answered_mode, commanded, handle_button, handle_serial, state_mode, types_keys,
    SerialCommand, State, FLASH_MS,
};
use crate::firmware::serial::{
    command_in, command_word, completed_by, ends_line, event_line, kept_after, kept_after_all,
    law_bytes_join, law_lines_arrive_whole, law_single_bytes, law_words_name_commands, lines_in,
    read_line, serial_send_event, LineBuffer, SerialReport,
};
use crate::text::{is_white_space, trimmed, trimmed_end, trimmed_start};

verus! {

/// Main loop tick interval (ms). Controls LED refresh rate.
pub const TICK_MS: u32 = 10;

/// The state of the device and what its ring shows of it.
#[derive(Debug, Clone, Copy, PartialEq, Eq, Structural)]
pub struct Panel {
    pub state: State,
    /// What the ring shows.
    pub led_mode: LedMode,
    /// What it shows again once a flash is over.
    pub prev_led_mode: LedMode,
    /// When the flash is over, while there is one.
    pub flash_end: Option<u128>,
}

impl Panel {
    /// The ring shows the state, or it shows the blue flash on the way back to
    /// `Idle`.
    pub open spec fn wf(self) -> bool {
        &&& self.prev_led_mode == state_mode(self.state)
        &&& match self.flash_end {
            None => self.led_mode == self.prev_led_mode,
            Some(_) => self.state == State::Idle && self.led_mode == LedMode::Flash(
                color_blue(),
                FLASH_MS,
            ),
        }
    }

    /// The panel after a command from the host, which cancels any flash.
    pub open spec fn after_command(self, cmd: SerialCommand) -> Panel {
        Panel {
            state: commanded(cmd),
            led_mode: state_mode(commanded(cmd)),
            prev_led_mode: state_mode(commanded(cmd)),
            flash_end: None,
        }
    }

    /// The panel after a complete line, which matters only if it is a command.
    pub open spec fn after_line(self, line: Seq<u8>) -> Panel {
        match command_in(line) {
            Some(cmd) => self.after_command(cmd),
            None => self,
        }
    }

    /// The panel after several complete lines.
    pub open spec fn after_lines(self, lines: Seq<Seq<u8>>) -> Panel
        decreases lines.len(),
    {
        if lines.len() == 0 {
            self
        } else {
            self.after_lines(lines.drop_last()).after_line(lines.last())
        }
    }

    /// The panel after a gesture at `now`: an answer in `Done` flashes first.
    pub open spec fn after_event(self, event: ButtonEvent, now: u128) -> Panel {
        let mode = answered_mode(self.state, event);
        match mode {
            LedMode::Flash(_, dur_ms) => Panel {
                state: answered(self.state, event),
                led_mode: mode,
                prev_led_mode: LedMode::Solid(color_white_dim()),
                flash_end: Some((now + nanos_of(dur_ms as u64)) as u128),
            },
            _ => Panel {
                state: answered(self.state, event),
                led_mode: mode,
                prev_led_mode: mode,
                flash_end: None,
            },
        }
    }

    /// The panel at `now`: a flash that is over gives way to what comes after.
    pub open spec fn at(self, now: u128) -> Panel {
        match self.flash_end {
            Some(end) => if now >= end {
                Panel { led_mode: self.prev_led_mode, flash_end: None, ..self }
            } else {
                self
            },
            None => self,
        }
    }

    /// The panel of an idle device.
    pub fn new() -> (panel: Panel)
        ensures
            panel.wf(),
            panel.state == State::Idle,
            panel.led_mode == LedMode::Solid(RGB8 { r: 30, g: 30, b: 30 }),
            panel.prev_led_mode == panel.led_mode,
            panel.flash_end is None,
    {
        Panel {
            state: State::Idle,
            led_mode: LedMode::Solid(color_white_dim()),
            prev_led_mode: LedMode::Solid(color_white_dim()),
            flash_end: None,
        }
    }

    /// Follows a command from the host.
    pub fn command(&mut self, cmd: SerialCommand)
        ensures
            final(self).wf(),
            *final(self) == old(self).after_command(cmd),
            final(self).state == State::Working <==> cmd == SerialCommand::Working,
            final(self).state == State::Done <==> cmd == SerialCommand::Done,
            final(self).state == State::NeedsInput <==> cmd == SerialCommand::Input,
            final(self).state == State::Idle <==> cmd == SerialCommand::Idle,
            final(self).state == State::Error <==> cmd == SerialCommand::Error,
            final(self).led_mode == state_mode(final(self).state),
            final(self).prev_led_mode == final(self).led_mode,
            final(self).flash_end is None,
    {
        let (new_state, new_mode) = handle_serial(self.state, cmd);
        self.state = new_state;
        self.led_mode = new_mode;
        self.prev_led_mode = new_mode;
        self.flash_end = None;  // cancel any active flash
    }

    /// Follows a gesture at `now`; tells whether keystrokes are to be sent.
    pub fn answer(&mut self, event: ButtonEvent, now: u128) -> (send_hid: bool)
        requires
            now + nanos_of(FLASH_MS as u64) <= u128::MAX,
        ensures
            final(self).wf(),
            *final(self) == old(self).after_event(event, now),
            send_hid == types_keys(old(self).state, event),
    {
        let (new_state, new_mode, send_hid) = handle_button(self.state, event);
        self.state = new_state;
        match new_mode {
            LedMode::Flash(color, dur_ms) => {
                self.prev_led_mode = LedMode::Solid(color_white_dim());
                self.led_mode = LedMode::Flash(color, dur_ms);
                self.flash_end = Some(now + millis(dur_ms as u64));
            },
            other => {
                self.led_mode = other;
                self.prev_led_mode = other;
                self.flash_end = None;
            },
        }
        send_hid
    }

    /// Ends a flash whose time is over at `now`.
    pub fn settle(&mut self, now: u128)
        requires
            old(self).wf(),
        ensures
            final(self).wf(),
            *final(self) == old(self).at(now),
    {
        if let Some(end) = self.flash_end {
            if now >= end {
                self.led_mode = self.prev_led_mode;
                self.flash_end = None;
            }
        }
    }
}

/// What a gesture asks the device to do.
#[derive(Debug, PartialEq, Eq)]
pub struct Press {
    pub event: ButtonEvent,
    /// The state that the device was in.
    pub state: State,
    /// The line to send to the host.
    pub line: &'static str,
    /// The keystrokes to send, if any.
    pub keys: Vec<HidStep>,
}

impl Press {
    /// What is done about `event` by a device in `state`.
    pub open spec fn answers(self, state: State, event: ButtonEvent) -> bool {
        &&& self.event == event
        &&& self.state == state
        &&& self.line@ == event_line(event)
        &&& self.keys@ == (if types_keys(state, event) {
            key_strokes(keys_for(typed_text(event)))
        } else {
            Seq::empty()
        })
    }
}

/// What came of one turn of the main loop.
#[derive(Debug, PartialEq, Eq)]
pub struct Turn {
    /// The lines that came in over serial, in order.
    pub heard: Vec<SerialReport>,
    /// What to do about the gesture that was completed, if one was.
    pub press: Option<Press>,
}

/// The whole of the device's memory.
pub struct Device {
    pub panel: Panel,
    pub button: ButtonState,
    pub line: LineBuffer,
}

impl Device {
    /// All parts are in order.
    pub open spec fn wf(self) -> bool {
        self.panel.wf() && self.button.wf() && self.line.wf()
    }

    /// The panel once `received` has come in over serial.
    pub open spec fn panel_after(self, received: Seq<u8>) -> Panel {
        self.panel.after_lines(lines_in(self.line@, received))
    }

    /// A device that has just started.
    pub fn new(now: u128) -> (device: Device)
        ensures
            device.wf(),
            device.panel.state == State::Idle,
            device.panel.flash_end is None,
            device.line@ == Seq::<u8>::empty(),
            !device.button.pressed,
            device.button.tap_count == 0,
            device.button.last_edge == now,
            !device.button.long_press_fired,
    {
        Device { panel: Panel::new(), button: ButtonState::new(now), line: LineBuffer::new() }
    }

    /// Takes in one byte from the serial line; a line that it completes is
    /// reported, and followed if it is a command.
    pub fn receive(&mut self, byte: u8) -> (report: Option<SerialReport>)
        requires
            old(self).wf(),
        ensures
            final(self).wf(),
            final(self).line@ == kept_after(old(self).line@, byte),
            final(self).button == old(self).button,
            match completed_by(old(self).line@, byte) {
                Some(line) => {
                    &&& report matches Some(r) && r.describes(line)
                    &&& final(self).panel == old(self).panel.after_line(line)
                },
                None => report is None && final(self).panel == old(self).panel,
            },
    {
        match self.line.push(byte) {
            Some(line) => {
                let report = read_line(line.as_slice());
                if let SerialReport::Command(cmd) = &report {
                    self.panel.command(*cmd);
                }
                Some(report)
            },
            None => None,
        }
    }

    /// Takes in the level of the switch at `sampled`; a gesture that is completed
    /// is followed, in the turn that began at `now`.
    pub fn sample(&mut self, raw_pressed: bool, sampled: u128, now: u128) -> (press: Option<Press>)
        requires
            old(self).wf(),
            now + nanos_of(FLASH_MS as u64) <= u128::MAX,
        ensures
            final(self).wf(),
            final(self).line == old(self).line,
            final(self).button == old(self).button.next(raw_pressed, sampled),
            match old(self).button.event_on(raw_pressed, sampled) {
                Some(event) => {
                    &&& press matches Some(p) && p.answers(old(self).panel.state, event)
                    &&& final(self).panel == old(self).panel.after_event(event, now)
                },
                None => press is None && final(self).panel == old(self).panel,
            },
    {
        match self.button.update(raw_pressed, sampled) {
            Some(event) => {
                let state = self.panel.state;
                let send_hid = self.panel.answer(event, now);
                let keys: Vec<HidStep> = if send_hid {
                    hid_send_event(event)
                } else {
                    Vec::new()
                };
                Some(Press { event, state, line: serial_send_event(event), keys })
            },
            None => None,
        }
    }

    /// One turn of the main loop, which began at `now`: first the bytes that the
    /// serial line brought, then the switch as it was at `sampled`, then the flash
    /// timer.
    pub fn turn(
        &mut self,
        received: &[u8],
        raw_pressed: bool,
        sampled: u128,
        now: u128,
    ) -> (turn: Turn)
        requires
            old(self).wf(),
            now + nanos_of(FLASH_MS as u64) <= u128::MAX,
        ensures
            final(self).wf(),
            final(self).line@ == kept_after_all(old(self).line@, received@),
            final(self).button == old(self).button.next(raw_pressed, sampled),
            turn.heard@.len() == lines_in(old(self).line@, received@).len(),
            forall|i: int|
                0 <= i < turn.heard@.len() ==> (#[trigger] turn.heard@[i]).describes(
                    lines_in(old(self).line@, received@)[i],
                ),
            match old(self).button.event_on(raw_pressed, sampled) {
                Some(event) => {
                    &&& turn.press matches Some(p) && p.answers(
                        old(self).panel_after(received@).state,
                        event,
                    )
                    &&& final(self).panel == old(self).panel_after(received@).after_event(
                        event,
                        now,
                    ).at(now)
                },
                None => {
                    &&& turn.press is None
                    &&& final(self).panel == old(self).panel_after(received@).at(now)
                },
            },
    {
        let mut heard: Vec<SerialReport> = Vec::new();
        let mut i: usize = 0;
        assert(received@.take(0) == Seq::<u8>::empty());
        while i < received.len()
            invariant
                i <= received@.len(),
                self.wf(),
                self.button == old(self).button,
                self.line@ == kept_after_all(old(self).line@, received@.take(i as int)),
                self.panel == old(self).panel_after(received@.take(i as int)),
                heard@.len() == lines_in(old(self).line@, received@.take(i as int)).len(),
                forall|j: int|
                    0 <= j < heard@.len() ==> (#[trigger] heard@[j]).describes(
                        lines_in(old(self).line@, received@.take(i as int))[j],
                    ),
            decreases received.len() - i,
        {
            let ghost lines = lines_in(old(self).line@, received@.take(i as int));
            assert(received@.take(i + 1).drop_last() == received@.take(i as int));
            if let Some(report) = self.receive(received[i]) {
                heard.push(report);
                assert(lines_in(old(self).line@, received@.take(i + 1)).drop_last() == lines);
            }
            i = i + 1;
        }
        assert(received@.take(i as int) == received@);
        let press = self.sample(raw_pressed, sampled, now);
        self.panel.settle(now);
        Turn { heard, press }
    }

    /// The colors of the ring `elapsed_ms` after the start; see [`render_leds`]
    /// for `pulsed`.
    pub fn frame(&self, elapsed_ms: u64, pulsed: RGB8) -> (pixels: [RGB8; NUM_LEDS])
        requires
            self.wf(),
        ensures
            pixels@ == Seq::new(
                NUM_LEDS as nat,
                |i: int| self.panel.led_mode.color_at(elapsed_ms, pulsed),
            ),
    {
        render_leds(&self.panel.led_mode, elapsed_ms, pulsed)
    }
}

/// The milliseconds in a number of nanoseconds, as far as they fit 64 bits; LED
/// animation goes by them.
pub fn elapsed_ms(now: u128) -> (ms: u64)
    ensures
        ms == (now / 1_000_000) as u64,
{
    #[verifier::truncate]
    let ms: u64 = (now / 1_000_000) as u64;
    ms
}

/// Away from a flash the ring always shows the state the device is in.
pub proof fn law_ring_shows_state(panel: Panel)
    requires
        panel.wf(),
        panel.flash_end is None,
    ensures
        panel.led_mode == state_mode(panel.state),
{
}

/// An answer in `Done` flashes the ring blue for the flash time and leaves the
/// device idle and dim after it.
pub proof fn law_answer_flashes_once(panel: Panel, event: ButtonEvent, now: u128, later: u128)
    requires
        panel.wf(),
        panel.state == State::Done,
        event == ButtonEvent::SingleTap || event == ButtonEvent::DoubleTap,
        now + FLASH_MS * 1_000_000 <= u128::MAX,
        now <= later,
    ensures
        panel.after_event(event, now).state == State::Idle,
        panel.after_event(event, now).at(later).led_mode == (if later - now < FLASH_MS * 1_000_000 {
            LedMode::Flash(color_blue(), FLASH_MS)
        } else {
            LedMode::Solid(color_white_dim())
        }),
        panel.after_event(event, now).at(later).wf(),
{
}

/// Lines can be followed in two stretches.
proof fn lemma_lines_join(panel: Panel, first: Seq<Seq<u8>>, second: Seq<Seq<u8>>)
    ensures
        panel.after_lines(first + second) == panel.after_lines(first).after_lines(second),
    decreases second.len(),
{
    if second.len() == 0 {
        assert(first + second == first);
    } else {
        lemma_lines_join(panel, first, second.drop_last());
        assert((first + second).drop_last() == first + second.drop_last());
        assert((first + second).last() == second.last());
    }
}

/// It makes no difference to the panel how the bytes from the host are spread
/// over the turns in which they are read.
pub proof fn law_reading_in_parts(before: Device, between: Device, first: Seq<u8>, second: Seq<u8>)
    requires
        between.panel == before.panel_after(first),
        between.line@ == kept_after_all(before.line@, first),
    ensures
        between.panel_after(second) == before.panel_after(first + second),
        kept_after_all(between.line@, second) == kept_after_all(before.line@, first + second),
{
    law_bytes_join(before.line@, first, second);
    lemma_lines_join(
        before.panel,
        lines_in(before.line@, first),
        lines_in(between.line@, second),
    );
}

/// The words of the protocol are ASCII, start and end with a letter, and are
/// short enough for the buffer.
proof fn lemma_words_fit_a_line(cmd: SerialCommand)
    ensures
        is_ascii_chars(command_word(cmd)),
        trimmed(command_word(cmd)) == command_word(cmd),
        0 < command_word(cmd).len() <= 7,
        forall|i: int|
            0 <= i < command_word(cmd).len() ==> 'A' <= #[trigger] command_word(cmd)[i] <= 'Z',
{
    reveal_strlit("WORKING");
    reveal_strlit("DONE");
    reveal_strlit("INPUT");
    reveal_strlit("IDLE");
    reveal_strlit("ERROR");
    let word = command_word(cmd);
    assert(!is_white_space(word[0]) && !is_white_space(word.last()));
    assert(trimmed_start(word) == word);
    assert(trimmed_end(word) == word);
}

/// A word of the protocol on a line of its own takes effect at once, in every
/// state: the device is in the state that the command asks for, the ring shows
/// it, and a flash in progress is cancelled.
pub proof fn law_command_line_takes_effect(device: Device, cmd: SerialCommand, end: u8)
    requires
        device.line@ == Seq::<u8>::empty(),
        end == 0x0a || end == 0x0d,
    ensures
        device.panel_after(encode_utf8(command_word(cmd)).push(end))
            == device.panel.after_command(cmd),
        ({
            let panel = device.panel_after(encode_utf8(command_word(cmd)).push(end));
            &&& panel.state == commanded(cmd)
            &&& panel.led_mode == state_mode(commanded(cmd))
            &&& panel.prev_led_mode == state_mode(commanded(cmd))
            &&& panel.flash_end is None
        }),
        kept_after_all(device.line@, encode_utf8(command_word(cmd)).push(end)) == Seq::<
            u8,
        >::empty(),
{
    let word = command_word(cmd);
    let line = encode_utf8(word);
    lemma_words_fit_a_line(cmd);
    is_ascii_chars_encode_utf8(word);
    assert(line == Seq::new(word.len(), |i: int| word[i] as u8));
    assert forall|i: int| 0 <= i < line.len() implies !ends_line(#[trigger] line[i]) by {
        assert('A' <= word[i] <= 'Z');
    }
    law_lines_arrive_whole(line, end);
    encode_utf8_valid_utf8(word);
    encode_utf8_decode_utf8(word);
    law_words_name_commands(cmd);
    assert(command_in(line) == Some(cmd));
    assert(seq![line].drop_last() == Seq::<Seq<u8>>::empty());
    reveal_with_fuel(Panel::after_lines, 2);
}

/// A command decides everything about the panel: whatever the panel was, it is in the
/// state that the command names, shows that state, and flashes no more.
pub proof fn law_commands_decide_the_panel(panel: Panel, other: Panel, cmd: SerialCommand)
    ensures
        panel.after_command(cmd).state == commanded(cmd),
        panel.after_command(cmd).led_mode == state_mode(commanded(cmd)),
        panel.after_command(cmd).prev_led_mode == state_mode(commanded(cmd)),
        panel.after_command(cmd).flash_end is None,
        panel.after_command(cmd) == other.after_command(cmd),
{
}

/// Lines are followed one after the other, each if it holds a command, and any other
/// changes nothing.
pub proof fn law_lines_are_followed_in_order(panel: Panel, lines: Seq<Seq<u8>>, line: Seq<u8>)
    ensures
        panel.after_lines(Seq::empty()) == panel,
        panel.after_lines(lines.push(line)) == panel.after_lines(lines).after_line(line),
        command_in(line) matches Some(cmd) ==> panel.after_line(line).state == commanded(cmd)
            && panel.after_line(line).led_mode == state_mode(commanded(cmd))
            && panel.after_line(line).prev_led_mode == state_mode(commanded(cmd))
            && panel.after_line(line).flash_end is None,
        command_in(line) is None ==> panel.after_line(line) == panel,
{
    assert(lines.push(line).drop_last() == lines);
}

/// One byte from the host changes the panel only if it completes a line.
pub proof fn law_bytes_reach_the_panel_as_lines(device: Device, byte: u8)
    ensures
        device.panel_after(Seq::empty()) == device.panel,
        (byte == 0x0a || byte == 0x0d) && device.line@.len() > 0 ==> device.panel_after(seq![byte])
            == device.panel.after_line(device.line@),
        !((byte == 0x0a || byte == 0x0d) && device.line@.len() > 0) ==> device.panel_after(
            seq![byte],
        ) == device.panel,
{
    law_single_bytes(device.line@, byte);
    law_lines_are_followed_in_order(device.panel, Seq::empty(), device.line@);
    assert(Seq::<Seq<u8>>::empty().push(device.line@) == seq![device.line@]);
}

/// The last command counts: whatever the host has sent before, once a line with a
/// command is complete the device is in the state that the command names, shows it, and
/// flashes no more.
pub proof fn law_last_command_counts(device: Device, earlier: Seq<u8>, cmd: SerialCommand, end: u8)
    requires
        kept_after_all(device.line@, earlier).len() == 0,
        end == 0x0a || end == 0x0d,
    ensures
        ({
            let panel = device.panel_after(earlier + encode_utf8(command_word(cmd)).push(end));
            &&& panel.state == commanded(cmd)
            &&& panel.led_mode == state_mode(commanded(cmd))
            &&& panel.prev_led_mode == state_mode(commanded(cmd))
            &&& panel.flash_end is None
        }),
{
    let word = command_word(cmd);
    let line = encode_utf8(word);
    let between = device.panel_after(earlier);
    assert(kept_after_all(device.line@, earlier) == Seq::<u8>::empty());
    lemma_words_fit_a_line(cmd);
    is_ascii_chars_encode_utf8(word);
    assert(line == Seq::new(word.len(), |i: int| word[i] as u8));
    assert forall|i: int| 0 <= i < line.len() implies #[trigger] line[i] != 0x0a && line[i]
        != 0x0d by {
        assert('A' <= word[i] <= 'Z');
    }
    law_lines_arrive_whole(line, end);
    encode_utf8_valid_utf8(word);
    encode_utf8_decode_utf8(word);
    law_words_name_commands(cmd);
    law_bytes_join(device.line@, earlier, line.push(end));
    lemma_lines_join(device.panel, lines_in(device.line@, earlier), seq![line]);
    law_lines_are_followed_in_order(between, Seq::empty(), line);
    assert(Seq::<Seq<u8>>::empty().push(line) == seq![line]);
}

/// An answer to `Done` leads to `Idle` by way of a blue flash of 200 ms, after which the
/// ring is dim white; every other gesture shows the state that it leads to at once, and
/// ends a flash.
pub proof fn law_gestures_set_the_panel(panel: Panel, event: ButtonEvent, now: u128)
    requires
        now + 200_000_000 <= u128::MAX,
    ensures
        ({
            let after = panel.after_event(event, now);
            let answer = panel.state == State::Done && (event == ButtonEvent::SingleTap || event
                == ButtonEvent::DoubleTap);
            &&& after.state == answered(panel.state, event)
            &&& answer ==> after.state == State::Idle && after.led_mode == LedMode::Flash(
                RGB8 { r: 0, g: 0, b: 200 },
                200,
            ) && after.prev_led_mode == LedMode::Solid(RGB8 { r: 30, g: 30, b: 30 })
                && after.flash_end == Some((now + 200_000_000) as u128)
            &&& !answer ==> after.led_mode == state_mode(after.state) && after.prev_led_mode
                == state_mode(after.state) && after.flash_end is None
        }),
{
}

/// A flash lasts until its end and not beyond it; nothing else is a matter of time.
pub proof fn law_flashes_end_in_time(panel: Panel, now: u128)
    ensures
        panel.at(now).state == panel.state,
        panel.at(now).prev_led_mode == panel.prev_led_mode,
        panel.flash_end matches Some(end) ==> {
            &&& now < end ==> panel.at(now) == panel
            &&& now >= end ==> panel.at(now).led_mode == panel.prev_led_mode && panel.at(
                now,
            ).flash_end is None
        },
        panel.flash_end is None ==> panel.at(now) == panel,
{
}

/// What is typed depends on the gesture alone: wherever a gesture is passed on, a single
/// tap types `y` and Enter, a double tap `n` and Enter, a triple tap `/security` and
/// Enter, a long press `/explain` and Enter, key by key. It is passed on in `Idle` and
/// `NeedsInput`, as an answer to `Done` and as a hold in `Working`; elsewhere nothing is
/// typed. The line to the host tells the gesture in every state.
pub proof fn law_presses_mean_their_gesture(press: Press, state: State, event: ButtonEvent)
    requires
        press.answers(state, event),
    ensures
        press.event == event,
        press.state == state,
        event == ButtonEvent::SingleTap ==> press.line@ == "TAP1\n"@,
        event == ButtonEvent::DoubleTap ==> press.line@ == "TAP2\n"@,
        event == ButtonEvent::TripleTap ==> press.line@ == "TAP3\n"@,
        event == ButtonEvent::LongPress ==> press.line@ == "HOLD\n"@,
        ({
            let hold = event == ButtonEvent::LongPress;
            let answer = event == ButtonEvent::SingleTap || event == ButtonEvent::DoubleTap;
            let typed = state == State::Idle || state == State::NeedsInput || (state == State::Done
                && answer) || (state == State::Working && hold);
            &&& !typed ==> press.keys@.len() == 0
            &&& typed && event == ButtonEvent::SingleTap ==> press.keys@ == key_strokes(
                seq![0x1cu8, 0x28u8],
            )
            &&& typed && event == ButtonEvent::DoubleTap ==> press.keys@ == key_strokes(
                seq![0x11u8, 0x28u8],
            )
            &&& typed && event == ButtonEvent::TripleTap ==> press.keys@ == key_strokes(
                seq![
                    0x38u8,
                    0x16u8,
                    0x08u8,
                    0x06u8,
                    0x18u8,
                    0x15u8,
                    0x0cu8,
                    0x17u8,
                    0x1cu8,
                    0x28u8,
                ],
            )
            &&& typed && event == ButtonEvent::LongPress ==> press.keys@ == key_strokes(
                seq![0x38u8, 0x08u8, 0x1bu8, 0x13u8, 0x0fu8, 0x04u8, 0x0cu8, 0x11u8, 0x28u8],
            )
        }),
{
    law_gestures_type_their_words(event);
}

/// A gesture types the same in all states in which it types anything.
pub proof fn law_typing_is_the_same_in_all_states(
    a: Press,
    in_a: State,
    b: Press,
    in_b: State,
    event: ButtonEvent,
)
    requires
        a.answers(in_a, event),
        b.answers(in_b, event),
    ensures
        a.keys@.len() > 0 && b.keys@.len() > 0 ==> a.keys@ == b.keys@,
        a.line@ == b.line@,
{
}

} // verus!
