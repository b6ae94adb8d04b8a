use pulse::firmware::button::ButtonEvent;
use pulse::firmware::device::{elapsed_ms, Device, Panel, TICK_MS};
use pulse::firmware::hid::{
    hid_send_event, hid_send_key, hid_send_keys, HidKeyboardReport, HidStep,
};
use pulse::firmware::led::{
    color_blue, color_green, color_off, color_red, color_white_dim, color_yellow, render_leds,
    LedMode, NUM_LEDS, RGB8,
};
use pulse::firmware::machine::{handle_button, handle_serial, SerialCommand, State};
use pulse::firmware::serial::{
    parse_serial_command, read_line, serial_send_event, LineBuffer, SerialReport,
};

const MS: u128 = 1_000_000;

const STATES: [State; 5] =
    [State::Idle, State::Working, State::Done, State::NeedsInput, State::Error];

const EVENTS: [ButtonEvent; 4] = [
    ButtonEvent::SingleTap,
    ButtonEvent::DoubleTap,
    ButtonEvent::TripleTap,
    ButtonEvent::LongPress,
];

/// The text that a run of key presses types, if each key goes down alone and up
/// again.
fn typed(steps: &[HidStep]) -> String {
    let mut text = String::new();
    assert_eq!(steps.len() % 4, 0);
    for stroke in steps.chunks(4) {
        let HidStep::Report(down) = stroke[0] else { panic!("no report") };
        assert_eq!(stroke[1], HidStep::DelayMs(15));
        assert_eq!(stroke[2], HidStep::Report(HidKeyboardReport::default()));
        assert_eq!(stroke[3], HidStep::DelayMs(15));
        assert_eq!((down.modifier, down.reserved), (0, 0));
        assert_eq!(down.keycode[1..], [0, 0, 0, 0, 0]);
        text.push(match down.keycode[0] {
            0x28 => '\n',
            0x38 => '/',
            key => (b'a' + (key - 0x04)) as char,
        });
    }
    text
}

#[test]
fn gestures_type_what_they_mean() {
    assert_eq!(typed(&hid_send_event(ButtonEvent::SingleTap)), "y\n");
    assert_eq!(typed(&hid_send_event(ButtonEvent::DoubleTap)), "n\n");
    assert_eq!(typed(&hid_send_event(ButtonEvent::TripleTap)), "/security\n");
    assert_eq!(typed(&hid_send_event(ButtonEvent::LongPress)), "/explain\n");
}

#[test]
fn keys_go_down_and_up_in_turn() {
    assert_eq!(hid_send_keys(&[]), vec![]);
    assert_eq!(typed(&hid_send_keys(&[0x04, 0x05])), "ab");
    let mut steps = Vec::new();
    hid_send_key(0x1c, &mut steps);
    assert_eq!(
        steps[0],
        HidStep::Report(HidKeyboardReport {
            modifier: 0,
            reserved: 0,
            keycode: [0x1c, 0, 0, 0, 0, 0]
        })
    );
    assert_eq!(steps.len(), 4);
}

#[test]
fn commands_are_words() {
    assert_eq!(parse_serial_command("WORKING"), Some(SerialCommand::Working));
    assert_eq!(parse_serial_command("DONE"), Some(SerialCommand::Done));
    assert_eq!(parse_serial_command("INPUT"), Some(SerialCommand::Input));
    assert_eq!(parse_serial_command("IDLE"), Some(SerialCommand::Idle));
    assert_eq!(parse_serial_command("ERROR"), Some(SerialCommand::Error));
    assert_eq!(parse_serial_command(" \tIDLE \u{3000}"), Some(SerialCommand::Idle));
    assert_eq!(parse_serial_command("idle"), None);
    assert_eq!(parse_serial_command("IDLE now"), None);
    assert_eq!(parse_serial_command(""), None);
}

#[test]
fn events_have_lines() {
    assert_eq!(serial_send_event(ButtonEvent::SingleTap), "TAP1\n");
    assert_eq!(serial_send_event(ButtonEvent::DoubleTap), "TAP2\n");
    assert_eq!(serial_send_event(ButtonEvent::TripleTap), "TAP3\n");
    assert_eq!(serial_send_event(ButtonEvent::LongPress), "HOLD\n");
}

#[test]
fn lines_are_told_apart() {
    assert_eq!(read_line(b"DONE "), SerialReport::Command(SerialCommand::Done));
    assert_eq!(read_line(b"BREW"), SerialReport::Unknown("BREW".to_string()));
    assert_eq!(read_line("Z\u{fc}rich".as_bytes()), SerialReport::Unknown("Z\u{fc}rich".to_string()));
    assert_eq!(read_line(b"\xffDONE"), SerialReport::Garbled);
}

fn lines(bytes: &[u8]) -> Vec<Vec<u8>> {
    let mut buffer = LineBuffer::new();
    bytes.iter().filter_map(|b| buffer.push(*b)).collect()
}

#[test]
fn lines_end_with_either_line_end() {
    assert_eq!(lines(b"DONE\r\n\nIDLE\rrest"), vec![b"DONE".to_vec(), b"IDLE".to_vec()]);
}

#[test]
fn lines_have_a_limit() {
    let mut fits = vec![b'x'; 128];
    fits.push(b'\n');
    assert_eq!(lines(&fits), vec![vec![b'x'; 128]]);
    // The byte after the limit clears the buffer, and what follows starts anew.
    let mut long = vec![b'x'; 129];
    long.extend_from_slice(b"IDLE\n");
    assert_eq!(lines(&long), vec![b"IDLE".to_vec()]);
}

#[test]
fn commands_set_the_state_from_any_state() {
    for state in STATES {
        assert_eq!(
            handle_serial(state, SerialCommand::Working),
            (State::Working, LedMode::Solid(color_red()))
        );
        assert_eq!(
            handle_serial(state, SerialCommand::Done),
            (State::Done, LedMode::Solid(color_green()))
        );
        assert_eq!(
            handle_serial(state, SerialCommand::Input),
            (State::NeedsInput, LedMode::Pulse(color_yellow()))
        );
        assert_eq!(
            handle_serial(state, SerialCommand::Idle),
            (State::Idle, LedMode::Solid(color_white_dim()))
        );
        assert_eq!(
            handle_serial(state, SerialCommand::Error),
            (State::Error, LedMode::Blink(color_red(), 500))
        );
    }
}

#[test]
fn gestures_answer() {
    let flash = LedMode::Flash(color_blue(), 200);
    let dim = LedMode::Solid(color_white_dim());
    let red = LedMode::Solid(color_red());
    let green = LedMode::Solid(color_green());
    let yellow = LedMode::Pulse(color_yellow());
    for event in EVENTS {
        let answer = event == ButtonEvent::SingleTap || event == ButtonEvent::DoubleTap;
        let long = event == ButtonEvent::LongPress;
        assert_eq!(
            handle_button(State::Done, event),
            if answer { (State::Idle, flash, true) } else { (State::Done, green, false) }
        );
        assert_eq!(
            handle_button(State::NeedsInput, event),
            if long { (State::NeedsInput, yellow, true) } else { (State::Working, red, true) }
        );
        assert_eq!(
            handle_button(State::Working, event),
            if long { (State::Idle, dim, true) } else { (State::Working, red, false) }
        );
        assert_eq!(handle_button(State::Error, event), (State::Idle, dim, false));
        assert_eq!(handle_button(State::Idle, event), (State::Idle, dim, true));
    }
}

#[test]
fn the_ring_shows_the_mode() {
    let grey = RGB8 { r: 1, g: 2, b: 3 };
    assert_eq!(render_leds(&LedMode::Solid(color_green()), 7, grey), [color_green(); 16]);
    assert_eq!(render_leds(&LedMode::Pulse(color_yellow()), 7, grey), [grey; 16]);
    assert_eq!(render_leds(&LedMode::Flash(color_blue(), 200), 9999, grey), [color_blue(); 16]);
    let blink = LedMode::Blink(color_red(), 500);
    for (ms, color) in [
        (0, color_red()),
        (249, color_red()),
        (250, color_off()),
        (499, color_off()),
        (500, color_red()),
        (1250, color_off()),
    ] {
        assert_eq!(render_leds(&blink, ms, grey), [color; NUM_LEDS]);
    }
}

#[test]
fn colors_are_those_of_the_ring() {
    assert_eq!(color_red(), RGB8 { r: 200, g: 0, b: 0 });
    assert_eq!(color_green(), RGB8 { r: 0, g: 180, b: 0 });
    assert_eq!(color_yellow(), RGB8 { r: 200, g: 160, b: 0 });
    assert_eq!(color_blue(), RGB8 { r: 0, g: 0, b: 200 });
    assert_eq!(color_white_dim(), RGB8 { r: 30, g: 30, b: 30 });
    assert_eq!(color_off(), RGB8 { r: 0, g: 0, b: 0 });
}

/// Runs the device in ticks, with the switch down from `down` to `up` (ms), and
/// gives what came of the gesture and the time (ms) it came at.
fn press(device: &mut Device, from: u128, down: u128, up: u128) -> (u128, pulse::firmware::device::Press) {
    let mut t = from;
    loop {
        let turn = device.turn(&[], down <= t && t < up, t * MS, t * MS);
        if let Some(press) = turn.press {
            return (t, press);
        }
        t += TICK_MS as u128;
    }
}

#[test]
fn a_device_starts_idle_and_dim() {
    let device = Device::new(0);
    assert_eq!(device.panel, Panel::new());
    assert_eq!(device.panel.state, State::Idle);
    assert_eq!(device.frame(0, color_off()), [color_white_dim(); 16]);
}

#[test]
fn a_turn_follows_commands_in_order() {
    let mut device = Device::new(0);
    let turn = device.turn(b"WORKING\nnonsense\n\xff\nDO", false, 10 * MS, 10 * MS);
    assert_eq!(
        turn.heard,
        vec![
            SerialReport::Command(SerialCommand::Working),
            SerialReport::Unknown("nonsense".to_string()),
            SerialReport::Garbled
        ]
    );
    assert_eq!(turn.press, None);
    assert_eq!(device.panel.state, State::Working);
    let turn = device.turn(b"NE\n", false, 20 * MS, 20 * MS);
    assert_eq!(turn.heard, vec![SerialReport::Command(SerialCommand::Done)]);
    assert_eq!(device.panel.led_mode, LedMode::Solid(color_green()));
}

#[test]
fn an_approval_flashes_and_returns_to_idle() {
    let mut device = Device::new(0);
    device.turn(b"DONE\n", false, 0, 0);
    let (t, press) = press(&mut device, 10, 100, 200);
    assert_eq!(t, 500);
    assert_eq!(press.event, ButtonEvent::SingleTap);
    assert_eq!(press.state, State::Done);
    assert_eq!(press.line, "TAP1\n");
    assert_eq!(typed(&press.keys), "y\n");
    assert_eq!(device.panel.state, State::Idle);
    assert_eq!(device.frame(0, color_off()), [color_blue(); 16]);
    device.turn(&[], false, 699 * MS, 699 * MS);
    assert_eq!(device.panel.flash_end, Some(700 * MS));
    assert_eq!(device.frame(0, color_off()), [color_blue(); 16]);
    device.turn(&[], false, 700 * MS, 700 * MS);
    assert_eq!(device.panel, Panel::new());
}

#[test]
fn the_switch_and_the_ring_have_moments_of_their_own() {
    let mut device = Device::new(0);
    device.turn(b"DONE\n", false, 0, 0);
    device.turn(&[], true, 100 * MS, 90 * MS);
    device.turn(&[], false, 200 * MS, 190 * MS);
    assert_eq!(device.turn(&[], false, 500 * MS - 1, 499 * MS).press, None);
    let turn = device.turn(&[], false, 500 * MS, 499 * MS);
    assert_eq!(turn.press.unwrap().event, ButtonEvent::SingleTap);
    assert_eq!(device.panel.flash_end, Some(699 * MS));
}

#[test]
fn a_command_cancels_a_flash() {
    let mut device = Device::new(0);
    device.turn(b"DONE\n", false, 0, 0);
    press(&mut device, 10, 100, 200);
    device.turn(b"ERROR\n", false, 510 * MS, 510 * MS);
    assert_eq!(device.panel.flash_end, None);
    assert_eq!(device.panel.led_mode, LedMode::Blink(color_red(), 500));
    device.turn(&[], false, 5000 * MS, 5000 * MS);
    assert_eq!(device.panel.state, State::Error);
}

#[test]
fn acknowledging_an_error_types_nothing() {
    let mut device = Device::new(0);
    device.turn(b"ERROR\n", false, 0, 0);
    let (_, press) = press(&mut device, 10, 100, 200);
    assert_eq!(press.line, "TAP1\n");
    assert_eq!(press.keys, vec![]);
    assert_eq!(device.panel.state, State::Idle);
}

#[test]
fn a_hold_cancels_work() {
    let mut device = Device::new(0);
    device.turn(b"WORKING\r\n", false, 0, 0);
    let (t, press) = press(&mut device, 10, 100, 9000);
    assert_eq!(t, 2100);
    assert_eq!(press.line, "HOLD\n");
    assert_eq!(typed(&press.keys), "/explain\n");
    assert_eq!(device.panel, Panel::new());
}

#[test]
fn bytes_can_come_one_by_one() {
    let mut device = Device::new(0);
    for byte in b"INPUT" {
        assert_eq!(device.receive(*byte), None);
    }
    assert_eq!(device.receive(b'\n'), Some(SerialReport::Command(SerialCommand::Input)));
    assert_eq!(device.panel.led_mode, LedMode::Pulse(color_yellow()));
    assert_eq!(device.sample(false, 10 * MS, 10 * MS), None);
}

#[test]
fn animation_goes_by_milliseconds() {
    assert_eq!(elapsed_ms(0), 0);
    assert_eq!(elapsed_ms(1_999_999), 1);
    assert_eq!(elapsed_ms(2_000_000_000), 2000);
}

#[test]
fn every_state_looks_different() {
    let looks: Vec<LedMode> = [
        SerialCommand::Idle,
        SerialCommand::Working,
        SerialCommand::Done,
        SerialCommand::Input,
        SerialCommand::Error,
    ]
    .iter()
    .map(|cmd| handle_serial(State::Idle, *cmd).1)
    .collect();
    for i in 0..looks.len() {
        for j in 0..i {
            assert_ne!(looks[i], looks[j]);
        }
    }
}

#[test]
fn bytes_can_be_spread_over_turns() {
    let bytes = b"WORKING\nDONE\nINPUT\nER";
    for cut in 0..=bytes.len() {
        let mut device = Device::new(0);
        device.turn(&bytes[..cut], false, 0, 0);
        device.turn(&bytes[cut..], false, 0, 0);
        assert_eq!(device.panel.state, State::NeedsInput);
        device.turn(b"ROR\n", false, 0, 0);
        assert_eq!(device.panel.state, State::Error);
    }
}
