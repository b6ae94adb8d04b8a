//! Keystrokes: which keys a gesture types, and how a key press is reported to
//! the host.

use vstd::prelude::*;

use crate::firmware::button::ButtonEvent;

verus! {

// HID usage IDs for the keys we need (USB HID Usage Tables 1.21).
pub const KEY_NONE: u8 = 0x00;

pub const KEY_ENTER: u8 = 0x28;

pub const KEY_Y: u8 = 0x1C;

pub const KEY_N: u8 = 0x11;

pub const KEY_SLASH: u8 = 0x38;

pub const KEY_S: u8 = 0x16;

pub const KEY_E: u8 = 0x08;

pub const KEY_C: u8 = 0x06;

pub const KEY_U: u8 = 0x18;

pub const KEY_R: u8 = 0x15;

pub const KEY_I: u8 = 0x0C;

pub const KEY_T: u8 = 0x17;

pub const KEY_X: u8 = 0x1B;

pub const KEY_P: u8 = 0x13;

pub const KEY_L: u8 = 0x0F;

pub const KEY_A: u8 = 0x04;

/// Pause after a key goes down and after it goes up again.
pub const KEY_DELAY_MS: u32 = 15;

/// HID keyboard report (boot protocol, 8 bytes).
#[derive(Debug, Clone, Copy, PartialEq, Eq)]
pub struct HidKeyboardReport {
    pub modifier: u8,
    pub reserved: u8,
    pub keycode: [u8; 6],
}

/// What the keyboard does next.
#[derive(Debug, Clone, Copy, PartialEq, Eq)]
pub enum HidStep {
    /// Report these keys as held down.
    Report(HidKeyboardReport),
    /// Wait for so many milliseconds.
    DelayMs(u32),
}

/// The report that shows one key held down, or none for [`KEY_NONE`].
pub open spec fn report_of(keycode: u8) -> HidKeyboardReport {
    HidKeyboardReport {
        modifier: 0,
        reserved: 0,
        keycode: [keycode, KEY_NONE, KEY_NONE, KEY_NONE, KEY_NONE, KEY_NONE],
    }
}

/// A key goes down and up again.
pub open spec fn key_stroke(keycode: u8) -> Seq<HidStep> {
    seq![
        HidStep::Report(report_of(keycode)),
        HidStep::DelayMs(KEY_DELAY_MS),
        HidStep::Report(report_of(KEY_NONE)),
        HidStep::DelayMs(KEY_DELAY_MS),
    ]
}

/// One key after the other goes down and up again.
pub open spec fn key_strokes(keys: Seq<u8>) -> Seq<HidStep>
    decreases keys.len(),
{
    if keys.len() == 0 {
        Seq::empty()
    } else {
        key_strokes(keys.drop_last()) + key_stroke(keys.last())
    }
}

/// The usage ID of the key that types a lower-case letter, a slash or a line
/// end.
pub open spec fn key_for(c: char) -> u8 {
    if 'a' <= c <= 'z' {
        (KEY_A + (c as u32 - 'a' as u32)) as u8
    } else if c == '/' {
        KEY_SLASH
    } else if c == '\n' {
        KEY_ENTER
    } else {
        KEY_NONE
    }
}

/// What a gesture types.
pub open spec fn typed_text(event: ButtonEvent) -> Seq<char> {
    match event {
        ButtonEvent::SingleTap => "y\n"@,
        ButtonEvent::DoubleTap => "n\n"@,
        ButtonEvent::TripleTap => "/security\n"@,
        ButtonEvent::LongPress => "/explain\n"@,
    }
}

/// The keys that type a text.
pub open spec fn keys_for(text: Seq<char>) -> Seq<u8> {
    text.map_values(|c: char| key_for(c))
}

impl Default for HidKeyboardReport {
    /// The report with no key held down.
    fn default() -> (report: HidKeyboardReport)
        ensures
            report == report_of(KEY_NONE),
            report.modifier == 0,
            report.reserved == 0,
            report.keycode@ == seq![0u8, 0u8, 0u8, 0u8, 0u8, 0u8],
    {
        HidKeyboardReport {
            modifier: 0,
            reserved: 0,
            keycode: [KEY_NONE, KEY_NONE, KEY_NONE, KEY_NONE, KEY_NONE, KEY_NONE],
        }
    }
}

/// Adds a single HID key press + release to `steps`.
pub fn hid_send_key(keycode: u8, steps: &mut Vec<HidStep>)
    ensures
        final(steps)@ == old(steps)@ + key_stroke(keycode),
{
    let report = HidKeyboardReport {
        modifier: 0,
        reserved: 0,
        keycode: [keycode, KEY_NONE, KEY_NONE, KEY_NONE, KEY_NONE, KEY_NONE],
    };
    // Press
    steps.push(HidStep::Report(report));
    steps.push(HidStep::DelayMs(KEY_DELAY_MS));
    // Release
    steps.push(HidStep::Report(HidKeyboardReport::default()));
    steps.push(HidStep::DelayMs(KEY_DELAY_MS));
}

/// The steps that send a sequence of HID keycodes, one press-release per keycode.
pub fn hid_send_keys(keys: &[u8]) -> (steps: Vec<HidStep>)
    ensures
        steps@ == key_strokes(keys@),
{
    let mut steps: Vec<HidStep> = Vec::new();
    let mut i: usize = 0;
    while i < keys.len()
        invariant
            i <= keys@.len(),
            steps@ == key_strokes(keys@.take(i as int)),
        decreases keys.len() - i,
    {
        hid_send_key(keys[i], &mut steps);
        i = i + 1;
        assert(keys@.take(i as int).drop_last() == keys@.take(i - 1));
    }
    assert(keys@.take(i as int) == keys@);
    steps
}

/// The steps that send the keystrokes of a button event.
pub fn hid_send_event(event: ButtonEvent) -> (steps: Vec<HidStep>)
    ensures
        steps@ == key_strokes(keys_for(typed_text(event))),
{
    proof {
        reveal_strlit("y\n");
        reveal_strlit("n\n");
        reveal_strlit("/security\n");
        reveal_strlit("/explain\n");
    }
    match event {
        // SingleTap -> "y" + Enter
        ButtonEvent::SingleTap => {
            let keys: [u8; 2] = [KEY_Y, KEY_ENTER];
            assert(keys@ == keys_for(typed_text(event)));
            hid_send_keys(&keys)
        },
        // DoubleTap -> "n" + Enter
        ButtonEvent::DoubleTap => {
            let keys: [u8; 2] = [KEY_N, KEY_ENTER];
            assert(keys@ == keys_for(typed_text(event)));
            hid_send_keys(&keys)
        },
        // TripleTap -> "/security" + Enter
        ButtonEvent::TripleTap => {
            let keys: [u8; 10] = [
                KEY_SLASH,
                KEY_S,
                KEY_E,
                KEY_C,
                KEY_U,
                KEY_R,
                KEY_I,
                KEY_T,
                KEY_Y,
                KEY_ENTER,
            ];
            assert(keys@ == keys_for(typed_text(event)));
            hid_send_keys(&keys)
        },
        // LongPress -> "/explain" + Enter
        ButtonEvent::LongPress => {
            let keys: [u8; 9] = [
                KEY_SLASH,
                KEY_E,
                KEY_X,
                KEY_P,
                KEY_L,
                KEY_A,
                KEY_I,
                KEY_N,
                KEY_ENTER,
            ];
            assert(keys@ == keys_for(typed_text(event)));
            hid_send_keys(&keys)
        },
    }
}

/// A report shows exactly one key, alone and without a modifier.
pub proof fn law_report_shows_one_key(keycode: u8)
    ensures
        report_of(keycode).modifier == 0,
        report_of(keycode).reserved == 0,
        report_of(keycode).keycode@ == seq![keycode, 0u8, 0u8, 0u8, 0u8, 0u8],
{
}

/// Each key is reported down alone, in its turn, and released before the next
/// one goes down, with a pause of 15 milliseconds after each report.
pub proof fn law_keys_one_at_a_time(keys: Seq<u8>, i: int)
    requires
        0 <= i < keys.len(),
    ensures
        key_strokes(keys).len() == 4 * keys.len(),
        key_strokes(keys)[4 * i] == HidStep::Report(report_of(keys[i])),
        key_strokes(keys)[4 * i + 2] == HidStep::Report(report_of(KEY_NONE)),
        key_strokes(keys)[4 * i] matches HidStep::Report(down) && down.modifier == 0
            && down.reserved == 0 && down.keycode@ == seq![keys[i], 0u8, 0u8, 0u8, 0u8, 0u8],
        key_strokes(keys)[4 * i + 1] == HidStep::DelayMs(15),
        key_strokes(keys)[4 * i + 2] matches HidStep::Report(up) && up.modifier == 0
            && up.reserved == 0 && up.keycode@ == seq![0u8, 0u8, 0u8, 0u8, 0u8, 0u8],
        key_strokes(keys)[4 * i + 3] == HidStep::DelayMs(15),
        key_strokes(seq![keys[i]]) == key_stroke(keys[i]),
    decreases keys.len(),
{
    law_report_shows_one_key(keys[i]);
    law_report_shows_one_key(KEY_NONE);
    reveal_with_fuel(key_strokes, 2);
    assert(seq![keys[i]].drop_last() == Seq::<u8>::empty());
    if i < keys.len() - 1 {
        law_keys_one_at_a_time(keys.drop_last(), i);
    } else if keys.len() > 1 {
        law_keys_one_at_a_time(keys.drop_last(), 0);
    }
}

/// Keys are struck one after the other: those of two runs of keys are those of the
/// first and then those of the second.
pub proof fn law_key_strokes_join(first: Seq<u8>, second: Seq<u8>)
    ensures
        key_strokes(first + second) == key_strokes(first) + key_strokes(second),
        key_strokes(Seq::empty()) == Seq::<HidStep>::empty(),
    decreases second.len(),
{
    if second.len() == 0 {
        assert(first + second == first);
    } else {
        law_key_strokes_join(first, second.drop_last());
        assert((first + second).drop_last() == first + second.drop_last());
        assert((first + second).last() == second.last());
    }
}

/// A text is typed key by key: letters have the usage IDs from 4 on in the order of the
/// alphabet, the slash has 0x38 and the line end, which is Enter, has 0x28.
pub proof fn law_texts_are_typed_key_by_key(text: Seq<char>, i: int)
    requires
        0 <= i < text.len(),
    ensures
        keys_for(text).len() == text.len(),
        'a' <= text[i] <= 'z' ==> keys_for(text)[i] == 4 + (text[i] as int - 'a' as int),
        text[i] == '/' ==> keys_for(text)[i] == 0x38,
        text[i] == '\n' ==> keys_for(text)[i] == 0x28,
{
}

/// A single tap types `y` and Enter, a double tap `n` and Enter, a triple tap
/// `/security` and Enter, a long press `/explain` and Enter.
pub proof fn law_gestures_type_their_words(event: ButtonEvent)
    ensures
        event == ButtonEvent::SingleTap ==> keys_for(typed_text(event)) == seq![0x1cu8, 0x28u8],
        event == ButtonEvent::DoubleTap ==> keys_for(typed_text(event)) == seq![0x11u8, 0x28u8],
        event == ButtonEvent::TripleTap ==> keys_for(typed_text(event)) == seq![
            0x38u8,
            0x16u8,
            0x08u8,
            0x06u8,
            0x18u8,
            0x15u8,
            0x0cu8,
            0x17u8,
            0x1cu8,
            0x28u8,
        ],
        event == ButtonEvent::LongPress ==> keys_for(typed_text(event)) == seq![
            0x38u8,
            0x08u8,
            0x1bu8,
            0x13u8,
            0x0fu8,
            0x04u8,
            0x0cu8,
            0x11u8,
            0x28u8,
        ],
{
    reveal_strlit("y\n");
    reveal_strlit("n\n");
    reveal_strlit("/security\n");
    reveal_strlit("/explain\n");
}

} // verus!
