//! The serial line: commands that come in, one word per line, and the lines
//! that report gestures to the host.

use vstd::prelude::*;
use vstd::utf8::*;

use crate::firmware::button::ButtonEvent;
use crate::firmware::machine::SerialCommand;
use crate::text::{
    is_white_space, law_trim_takes_the_padding, same_text, trim, trimmed, utf8_text,
};

verus! {

/// The longest line that is kept while waiting for its end.
pub const LINE_LIMIT: usize = 128;

/// The byte `\n`.
pub const LINE_FEED: u8 = 0x0a;

/// The byte `\r`.
pub const CARRIAGE_RETURN: u8 = 0x0d;

/// The word that stands for a command.
pub open spec fn command_word(cmd: SerialCommand) -> Seq<char> {
    match cmd {
        SerialCommand::Working => "WORKING"@,
        SerialCommand::Done => "DONE"@,
        SerialCommand::Input => "INPUT"@,
        SerialCommand::Idle => "IDLE"@,
        SerialCommand::Error => "ERROR"@,
    }
}

/// The command that a word stands for, if any.
pub open spec fn command_of(word: Seq<char>) -> Option<SerialCommand> {
    if word == command_word(SerialCommand::Working) {
        Some(SerialCommand::Working)
    } else if word == command_word(SerialCommand::Done) {
        Some(SerialCommand::Done)
    } else if word == command_word(SerialCommand::Input) {
        Some(SerialCommand::Input)
    } else if word == command_word(SerialCommand::Idle) {
        Some(SerialCommand::Idle)
    } else if word == command_word(SerialCommand::Error) {
        Some(SerialCommand::Error)
    } else {
        None
    }
}

/// The command in a line of bytes: none if the bytes are no UTF-8.
pub open spec fn command_in(line: Seq<u8>) -> Option<SerialCommand> {
    if valid_utf8(line) {
        command_of(trimmed(decode_utf8(line)))
    } else {
        None
    }
}

/// The line that reports a gesture to the host.
pub open spec fn event_line(event: ButtonEvent) -> Seq<char> {
    match event {
        ButtonEvent::SingleTap => "TAP1\n"@,
        ButtonEvent::DoubleTap => "TAP2\n"@,
        ButtonEvent::TripleTap => "TAP3\n"@,
        ButtonEvent::LongPress => "HOLD\n"@,
    }
}

/// Try to parse a complete line from the serial receive buffer.
pub fn parse_serial_command(line: &str) -> (cmd: Option<SerialCommand>)
    ensures
        cmd == command_of(trimmed(line@)),
{
    let word = trim(line);
    if same_text(word, "WORKING") {
        Some(SerialCommand::Working)
    } else if same_text(word, "DONE") {
        Some(SerialCommand::Done)
    } else if same_text(word, "INPUT") {
        Some(SerialCommand::Input)
    } else if same_text(word, "IDLE") {
        Some(SerialCommand::Idle)
    } else if same_text(word, "ERROR") {
        Some(SerialCommand::Error)
    } else {
        None
    }
}

/// The button event string to send over serial.
pub fn serial_send_event(event: ButtonEvent) -> (msg: &'static str)
    ensures
        msg@ == event_line(event),
{
    match event {
        ButtonEvent::SingleTap => "TAP1\n",
        ButtonEvent::DoubleTap => "TAP2\n",
        ButtonEvent::TripleTap => "TAP3\n",
        ButtonEvent::LongPress => "HOLD\n",
    }
}

/// A byte that ends a line.
pub open spec fn ends_line(byte: u8) -> bool {
    byte == LINE_FEED || byte == CARRIAGE_RETURN
}

/// The bytes kept for the next line once `byte` has come in after `kept`: a line
/// end starts afresh, and so does a line that grows beyond the limit.
pub open spec fn kept_after(kept: Seq<u8>, byte: u8) -> Seq<u8> {
    if ends_line(byte) || kept.len() >= LINE_LIMIT {
        Seq::empty()
    } else {
        kept.push(byte)
    }
}

/// No more than the limit is ever kept, and never a line end.
pub open spec fn can_be_kept(kept: Seq<u8>) -> bool {
    &&& kept.len() <= LINE_LIMIT
    &&& forall|i: int| 0 <= i < kept.len() ==> !ends_line(#[trigger] kept[i])
}

/// The line that `byte` completes: a line end completes what was kept, unless
/// that is nothing.
pub open spec fn completed_by(kept: Seq<u8>, byte: u8) -> Option<Seq<u8>> {
    if ends_line(byte) && kept.len() > 0 {
        Some(kept)
    } else {
        None
    }
}

/// The serial receive buffer: accumulates bytes until the end of a line.
pub struct LineBuffer {
    kept: Vec<u8>,
}

impl View for LineBuffer {
    type V = Seq<u8>;

    closed spec fn view(&self) -> Seq<u8> {
        self.kept@
    }
}

impl LineBuffer {
    /// The buffer holds the beginning of a line.
    pub open spec fn wf(self) -> bool {
        can_be_kept(self@)
    }

    /// An empty buffer.
    pub fn new() -> (buffer: LineBuffer)
        ensures
            buffer.wf(),
            buffer@ == Seq::<u8>::empty(),
    {
        LineBuffer { kept: Vec::new() }
    }

    /// Takes in one byte and returns the line that it completes.
    pub fn push(&mut self, byte: u8) -> (line: Option<Vec<u8>>)
        requires
            old(self).wf(),
        ensures
            final(self).wf(),
            final(self)@ == kept_after(old(self)@, byte),
            line is Some <==> completed_by(old(self)@, byte) is Some,
            line matches Some(bytes) ==> completed_by(old(self)@, byte) == Some(bytes@),
    {
        if byte == LINE_FEED || byte == CARRIAGE_RETURN {
            if self.kept.len() > 0 {
                let mut line: Vec<u8> = Vec::new();
                line.append(&mut self.kept);
                return Some(line);
            }
            return None;
        }
        self.kept.push(byte);
        // Cap the buffer to prevent unbounded growth.
        if self.kept.len() > LINE_LIMIT {
            self.kept.clear();
        }
        None
    }
}

/// What became of a line that was completed.
#[derive(Debug, PartialEq, Eq)]
pub enum SerialReport {
    /// It holds a command.
    Command(SerialCommand),
    /// It is text, but no command.
    Unknown(String),
    /// It is no text.
    Garbled,
}

impl SerialReport {
    /// The report fits the bytes of the line.
    pub open spec fn describes(self, line: Seq<u8>) -> bool {
        match self {
            SerialReport::Command(cmd) => command_in(line) == Some(cmd),
            SerialReport::Unknown(text) => valid_utf8(line) && command_in(line) is None && text@
                == decode_utf8(line),
            SerialReport::Garbled => !valid_utf8(line),
        }
    }
}

/// Looks for a command in a complete line.
pub fn read_line(line: &[u8]) -> (report: SerialReport)
    ensures
        report.describes(line@),
{
    match utf8_text(line) {
        Some(text) => match parse_serial_command(text) {
            Some(cmd) => SerialReport::Command(cmd),
            None => SerialReport::Unknown(text.to_owned()),
        },
        None => SerialReport::Garbled,
    }
}

/// The bytes kept once all of `bytes` have come in.
pub open spec fn kept_after_all(kept: Seq<u8>, bytes: Seq<u8>) -> Seq<u8>
    decreases bytes.len(),
{
    if bytes.len() == 0 {
        kept
    } else {
        kept_after(kept_after_all(kept, bytes.drop_last()), bytes.last())
    }
}

/// The lines that `bytes` complete, in order.
pub open spec fn lines_in(kept: Seq<u8>, bytes: Seq<u8>) -> Seq<Seq<u8>>
    decreases bytes.len(),
{
    if bytes.len() == 0 {
        Seq::empty()
    } else {
        let before = lines_in(kept, bytes.drop_last());
        match completed_by(kept_after_all(kept, bytes.drop_last()), bytes.last()) {
            Some(line) => before.push(line),
            None => before,
        }
    }
}

/// Every command has a word of its own.
pub proof fn law_words_name_commands(cmd: SerialCommand)
    ensures
        command_of(command_word(cmd)) == Some(cmd),
{
    reveal_strlit("WORKING");
    reveal_strlit("DONE");
    reveal_strlit("INPUT");
    reveal_strlit("IDLE");
    reveal_strlit("ERROR");
    assert(command_word(SerialCommand::Working)[0] == 'W');
    assert(command_word(SerialCommand::Done)[0] == 'D');
    assert(command_word(SerialCommand::Input)[0] == 'I' && command_word(SerialCommand::Input)[1]
        == 'N');
    assert(command_word(SerialCommand::Idle)[0] == 'I' && command_word(SerialCommand::Idle)[1]
        == 'D');
    assert(command_word(SerialCommand::Error)[0] == 'E');
}

/// Every gesture has a line of its own, which ends with its only line end.
pub proof fn law_event_lines_are_framed(a: ButtonEvent, b: ButtonEvent)
    ensures
        event_line(a) == event_line(b) ==> a == b,
        event_line(a).len() == 5,
        event_line(a).last() == '\n',
        forall|i: int| 0 <= i < 4 ==> #[trigger] event_line(a)[i] != '\n',
{
    reveal_strlit("TAP1\n");
    reveal_strlit("TAP2\n");
    reveal_strlit("TAP3\n");
    reveal_strlit("HOLD\n");
    assert(event_line(ButtonEvent::SingleTap)[3] == '1');
    assert(event_line(ButtonEvent::DoubleTap)[3] == '2');
    assert(event_line(ButtonEvent::TripleTap)[3] == '3');
    assert(event_line(ButtonEvent::LongPress)[3] == 'D');
}

/// Bytes can come in two stretches: the second starts with what the first left
/// in the buffer.
pub proof fn law_bytes_join(kept: Seq<u8>, first: Seq<u8>, second: Seq<u8>)
    ensures
        kept_after_all(kept, first + second) == kept_after_all(
            kept_after_all(kept, first),
            second,
        ),
        lines_in(kept, first + second) == lines_in(kept, first) + lines_in(
            kept_after_all(kept, first),
            second,
        ),
    decreases second.len(),
{
    if second.len() == 0 {
        assert(first + second == first);
    } else {
        law_bytes_join(kept, first, second.drop_last());
        assert((first + second).drop_last() == first + second.drop_last());
        assert((first + second).last() == second.last());
    }
}

/// Bytes without a line end are kept as they are, as far as the limit goes.
proof fn lemma_bytes_are_kept(bytes: Seq<u8>)
    requires
        can_be_kept(bytes),
    ensures
        kept_after_all(Seq::empty(), bytes) == bytes,
        lines_in(Seq::empty(), bytes) == Seq::<Seq<u8>>::empty(),
    decreases bytes.len(),
{
    if bytes.len() > 0 {
        lemma_bytes_are_kept(bytes.drop_last());
    } else {
        assert(bytes == Seq::<u8>::empty());
    }
}

/// A line of up to the limit arrives as it was sent: its bytes and a line end
/// complete exactly that line and leave nothing in the buffer.
pub proof fn law_lines_arrive_whole(line: Seq<u8>, end: u8)
    requires
        0 < line.len() <= 128,
        forall|i: int| 0 <= i < line.len() ==> #[trigger] line[i] != 0x0a && line[i] != 0x0d,
        end == 0x0a || end == 0x0d,
    ensures
        kept_after_all(Seq::empty(), line.push(end)) == Seq::<u8>::empty(),
        lines_in(Seq::empty(), line.push(end)) == seq![line],
{
    lemma_bytes_are_kept(line);
    assert(line.push(end).drop_last() == line);
}

/// No line beyond the limit, and no empty line, is ever completed, and none
/// holds a line end.
pub proof fn law_lines_are_bounded(kept: Seq<u8>, bytes: Seq<u8>)
    requires
        can_be_kept(kept),
    ensures
        can_be_kept(kept_after_all(kept, bytes)),
        forall|k: int|
            0 <= k < lines_in(kept, bytes).len() ==> {
                &&& can_be_kept(#[trigger] lines_in(kept, bytes)[k])
                &&& lines_in(kept, bytes)[k].len() > 0
            },
    decreases bytes.len(),
{
    if bytes.len() > 0 {
        let fewer = bytes.drop_last();
        law_lines_are_bounded(kept, fewer);
        assert forall|k: int| 0 <= k < lines_in(kept, bytes).len() implies {
            &&& can_be_kept(#[trigger] lines_in(kept, bytes)[k])
            &&& lines_in(kept, bytes)[k].len() > 0
        } by {
            if k < lines_in(kept, fewer).len() {
                assert(lines_in(kept, bytes)[k] == lines_in(kept, fewer)[k]);
            }
        }
    }
}

/// A word is a command exactly if it is one of the five of the protocol, letter for
/// letter.
pub proof fn law_commands_are_these_words(word: Seq<char>)
    ensures
        command_of(word) == Some(SerialCommand::Working) <==> word == "WORKING"@,
        command_of(word) == Some(SerialCommand::Done) <==> word == "DONE"@,
        command_of(word) == Some(SerialCommand::Input) <==> word == "INPUT"@,
        command_of(word) == Some(SerialCommand::Idle) <==> word == "IDLE"@,
        command_of(word) == Some(SerialCommand::Error) <==> word == "ERROR"@,
{
    law_words_name_commands(SerialCommand::Working);
    law_words_name_commands(SerialCommand::Done);
    law_words_name_commands(SerialCommand::Input);
    law_words_name_commands(SerialCommand::Idle);
    law_words_name_commands(SerialCommand::Error);
}

/// A line of text holds the command that is left of it without the white space around
/// it, and a line that is no text holds none.
pub proof fn law_commands_stand_alone_on_their_line(line: Seq<u8>, text: Seq<char>)
    ensures
        line == encode_utf8(text) ==> command_in(line) == command_of(trimmed(text)),
        !valid_utf8(line) ==> command_in(line) is None,
{
    encode_utf8_valid_utf8(text);
    encode_utf8_decode_utf8(text);
}

/// A command is found behind and before any amount of white space.
pub proof fn law_padding_hides_no_command(
    left: Seq<char>,
    cmd: SerialCommand,
    right: Seq<char>,
)
    requires
        forall|i: int| 0 <= i < left.len() ==> is_white_space(#[trigger] left[i]),
        forall|i: int| 0 <= i < right.len() ==> is_white_space(#[trigger] right[i]),
    ensures
        command_in(encode_utf8(left + command_word(cmd) + right)) == Some(cmd),
{
    reveal_strlit("WORKING");
    reveal_strlit("DONE");
    reveal_strlit("INPUT");
    reveal_strlit("IDLE");
    reveal_strlit("ERROR");
    let word = command_word(cmd);
    let text = left + word + right;
    assert(!is_white_space(word[0]) && !is_white_space(word.last()));
    law_trim_takes_the_padding(left, word, right);
    law_commands_stand_alone_on_their_line(encode_utf8(text), text);
    law_words_name_commands(cmd);
}

/// A report says which command a line holds; else it repeats a line that is text, and
/// says of any other that it is none.
pub proof fn law_reports_describe_lines(report: SerialReport, line: Seq<u8>)
    requires
        report.describes(line),
    ensures
        report is Garbled <==> !valid_utf8(line),
        report is Command <==> command_in(line) is Some,
        report matches SerialReport::Command(cmd) ==> command_in(line) == Some(cmd),
        report matches SerialReport::Unknown(text) ==> encode_utf8(text@) == line,
{
    if valid_utf8(line) {
        decode_utf8_encode_utf8(line);
    }
}

/// The lines that report the gestures: a tap with the number of taps, and a hold.
pub proof fn law_gestures_have_these_lines(event: ButtonEvent)
    ensures
        event == ButtonEvent::SingleTap ==> event_line(event) == seq!['T', 'A', 'P', '1', '\n'],
        event == ButtonEvent::DoubleTap ==> event_line(event) == seq!['T', 'A', 'P', '2', '\n'],
        event == ButtonEvent::TripleTap ==> event_line(event) == seq!['T', 'A', 'P', '3', '\n'],
        event == ButtonEvent::LongPress ==> event_line(event) == seq!['H', 'O', 'L', 'D', '\n'],
{
    reveal_strlit("TAP1\n");
    reveal_strlit("TAP2\n");
    reveal_strlit("TAP3\n");
    reveal_strlit("HOLD\n");
}

/// A byte other than a line end is added to what was kept, unless that has 128 bytes
/// already, in which case all is dropped; a line end completes what was kept, if
/// anything was, and nothing is kept after it.
pub proof fn law_bytes_fill_the_line(kept: Seq<u8>, byte: u8)
    ensures
        ({
            let line_end = byte == 0x0a || byte == 0x0d;
            let after = kept_after(kept, byte);
            &&& !line_end && kept.len() < 128 ==> after == kept.push(byte)
            &&& !line_end && kept.len() >= 128 ==> after.len() == 0
            &&& line_end ==> after.len() == 0
            &&& completed_by(kept, byte) is Some <==> line_end && kept.len() > 0
            &&& completed_by(kept, byte) matches Some(line) ==> line == kept
            &&& ends_line(byte) <==> line_end
        }),
{
}

/// A run of one byte does what the byte does, and an empty run does nothing.
pub proof fn law_single_bytes(kept: Seq<u8>, byte: u8)
    ensures
        kept_after_all(kept, Seq::empty()) == kept,
        lines_in(kept, Seq::empty()) == Seq::<Seq<u8>>::empty(),
        kept_after_all(kept, seq![byte]) == kept_after(kept, byte),
        completed_by(kept, byte) matches Some(line) ==> lines_in(kept, seq![byte]) == seq![line],
        completed_by(kept, byte) is None ==> lines_in(kept, seq![byte]) == Seq::<Seq<u8>>::empty(),
{
    assert(seq![byte].drop_last() == Seq::<u8>::empty());
    reveal_with_fuel(kept_after_all, 2);
    reveal_with_fuel(lines_in, 2);
}

} // verus!
