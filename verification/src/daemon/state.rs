//! The state of the agent, and when a new one is passed on.

use vstd::prelude::*;
use vstd::string::*;

use crate::json::{json_string, law_json_strings_end_at_their_quote, quoted};
use crate::text::{decimal, decimal_text};

verus! {

/// What the agent is doing, as the state file tells it.
#[derive(Debug, PartialEq, Eq)]
pub struct PulseState {
    pub state: String,
    pub message: String,
}

/// The texts of a [`PulseState`].
#[verifier::ext_equal]
pub struct StateText {
    pub state: Seq<char>,
    pub message: Seq<char>,
}

impl View for PulseState {
    type V = StateText;

    open spec fn view(&self) -> StateText {
        StateText { state: self.state@, message: self.message@ }
    }
}

impl Clone for PulseState {
    fn clone(&self) -> (copy: PulseState)
        ensures
            copy@ == self@,
    {
        PulseState { state: self.state.clone(), message: self.message.clone() }
    }
}

impl StateText {
    /// The state as the clients are told it: JSON on one line.
    pub open spec fn json(self) -> Seq<char> {
        "{\"state\":"@ + quoted(self.state) + ",\"message\":"@ + quoted(self.message) + "}"@
    }

    /// The state as it stands in the state file: JSON over several lines.
    pub open spec fn json_lines(self) -> Seq<char> {
        "{\n  \"state\": "@ + quoted(self.state) + ",\n  \"message\": "@ + quoted(self.message)
            + "\n}"@
    }
}

impl PulseState {
    /// A state of the given texts.
    pub fn new(state: &str, message: &str) -> (made: PulseState)
        ensures
            made@ == (StateText { state: state@, message: message@ }),
    {
        PulseState { state: state.to_owned(), message: message.to_owned() }
    }

    /// Whether two states are the same, word for word.
    pub fn same(&self, other: &PulseState) -> (yes: bool)
        ensures
            yes == (self@ == other@),
    {
        self.state == other.state && self.message == other.message
    }

    /// The state as JSON on one line.
    pub fn to_json(&self) -> (json: String)
        ensures
            json@ == self@.json(),
    {
        let mut json = "{\"state\":".to_owned();
        json.append(json_string(self.state.as_str()).as_str());
        json.append(",\"message\":");
        json.append(json_string(self.message.as_str()).as_str());
        json.append("}");
        json
    }

    /// The state as JSON over several lines.
    pub fn to_json_lines(&self) -> (json: String)
        ensures
            json@ == self@.json_lines(),
    {
        let mut json = "{\n  \"state\": ".to_owned();
        json.append(json_string(self.state.as_str()).as_str());
        json.append(",\n  \"message\": ");
        json.append(json_string(self.message.as_str()).as_str());
        json.append("\n}");
        json
    }
}

/// What reading the state file gave.
#[derive(Debug, PartialEq, Eq)]
pub enum Reading {
    /// It could not be read.
    Unreadable,
    /// It is not the JSON of a state.
    Malformed,
    /// The state in it.
    State(PulseState),
}

/// What a new reading of the state file calls for.
#[derive(Debug, PartialEq, Eq)]
pub enum Refresh {
    /// Nothing: it holds the state that is known.
    Nothing,
    /// Send this text to all clients.
    Broadcast(String),
    /// Warn that the file could not be read.
    WarnUnreadable,
    /// Warn that the file makes no sense.
    WarnMalformed,
}

impl Reading {
    /// The state known after this reading, where `current` was known before.
    pub open spec fn next(self, current: StateText) -> StateText {
        match self {
            Reading::State(state) => state@,
            _ => current,
        }
    }

    /// The text to broadcast after this reading: a state that is new.
    pub open spec fn broadcast(self, current: StateText) -> Option<Seq<char>> {
        if self.next(current) != current {
            Some(self.next(current).json())
        } else {
            None
        }
    }
}

impl Refresh {
    /// The text that is broadcast, if any.
    pub open spec fn text(self) -> Option<Seq<char>> {
        match self {
            Refresh::Broadcast(json) => Some(json@),
            _ => None,
        }
    }

    /// This is what `reading` calls for where `current` was known before.
    pub open spec fn fits(self, reading: Reading, current: StateText) -> bool {
        &&& self.text() == reading.broadcast(current)
        &&& self is WarnUnreadable <==> reading is Unreadable
        &&& self is WarnMalformed <==> reading is Malformed
    }
}

/// The state known after several readings.
pub open spec fn known_after(current: StateText, readings: Seq<Reading>) -> StateText
    decreases readings.len(),
{
    if readings.len() == 0 {
        current
    } else {
        readings.last().next(known_after(current, readings.drop_last()))
    }
}

/// The texts that several readings broadcast, in order.
pub open spec fn broadcasts_of(current: StateText, readings: Seq<Reading>) -> Seq<Seq<char>>
    decreases readings.len(),
{
    if readings.len() == 0 {
        Seq::empty()
    } else {
        let before = broadcasts_of(current, readings.drop_last());
        match readings.last().broadcast(known_after(current, readings.drop_last())) {
            Some(text) => before.push(text),
            None => before,
        }
    }
}

/// The state that the daemon knows of.
pub struct DaemonState {
    pub current: PulseState,
}

impl DaemonState {
    /// The state that the daemon writes where it finds none.
    pub open spec fn first_state() -> StateText {
        StateText { state: "idle"@, message: "Daemon started"@ }
    }

    /// The state of a daemon that has not read the state file yet.
    pub fn new() -> (daemon: DaemonState)
        ensures
            daemon.current@ == (StateText { state: "idle"@, message: ""@ }),
    {
        DaemonState { current: PulseState::new("idle", "") }
    }

    /// What a state file that is missing at startup is filled with; nothing is
    /// written to one that exists.
    pub fn initial_file(exists: bool) -> (contents: Option<String>)
        ensures
            contents is Some <==> !exists,
            contents matches Some(text) ==> text@ == Self::first_state().json_lines(),
    {
        if exists {
            None
        } else {
            Some(PulseState::new("idle", "Daemon started").to_json_lines())
        }
    }

    /// Takes over what the state file holds at startup, if it holds a state.
    pub fn load(&mut self, reading: Reading)
        ensures
            final(self).current@ == reading.next(old(self).current@),
            reading matches Reading::State(state) ==> final(self).current.state@ == state.state@
                && final(self).current.message@ == state.message@,
    {
        if let Reading::State(state) = reading {
            self.current = state;
        }
    }

    /// Takes over what the state file holds after a change; a state that is new
    /// is to be broadcast.
    pub fn refresh(&mut self, reading: Reading) -> (action: Refresh)
        ensures
            final(self).current@ == reading.next(old(self).current@),
            action.fits(reading, old(self).current@),
            reading matches Reading::State(state) ==> final(self).current.state@ == state.state@
                && final(self).current.message@ == state.message@,
    {
        match reading {
            Reading::State(state) => {
                if self.current.same(&state) {
                    Refresh::Nothing
                } else {
                    let json = state.to_json();
                    self.current = state;
                    Refresh::Broadcast(json)
                }
            },
            Reading::Unreadable => Refresh::WarnUnreadable,
            Reading::Malformed => Refresh::WarnMalformed,
        }
    }
}

/// The address that the WebSocket server listens on.
pub fn listen_address(port: u16) -> (address: String)
    ensures
        address@ == "0.0.0.0:"@ + decimal(port as nat),
{
    let mut address = "0.0.0.0:".to_owned();
    address.append(decimal_text(port as u64).as_str());
    address
}

/// Two states that differ are told to the clients in texts that differ.
pub proof fn law_broadcasts_are_unambiguous(a: StateText, b: StateText)
    requires
        a.json() == b.json(),
    ensures
        a == b,
{
    reveal_strlit("{\"state\":");
    reveal_strlit(",\"message\":");
    reveal_strlit("}");
    let head = "{\"state\":"@ + seq!['"'];
    let middle = ",\"message\":"@ + seq!['"'];
    let a_tail = middle + crate::json::escaped(a.message) + seq!['"'] + "}"@;
    let b_tail = middle + crate::json::escaped(b.message) + seq!['"'] + "}"@;
    assert(a.json() == head + (crate::json::escaped(a.state) + seq!['"'] + a_tail));
    assert(b.json() == head + (crate::json::escaped(b.state) + seq!['"'] + b_tail));
    assert(a.json().skip(head.len() as int) == crate::json::escaped(a.state) + seq!['"'] + a_tail);
    assert(b.json().skip(head.len() as int) == crate::json::escaped(b.state) + seq!['"'] + b_tail);
    law_json_strings_end_at_their_quote(a.state, a_tail, b.state, b_tail);
    assert(a_tail.skip(middle.len() as int) == crate::json::escaped(a.message) + seq!['"'] + "}"@);
    assert(b_tail.skip(middle.len() as int) == crate::json::escaped(b.message) + seq!['"'] + "}"@);
    law_json_strings_end_at_their_quote(a.message, "}"@, b.message, "}"@);
}

/// A state is broadcast exactly if it differs from the one known, and then it is
/// the one known from there on.
pub proof fn law_changes_are_broadcast(current: StateText, reading: Reading)
    ensures
        reading.broadcast(current) is Some <==> reading.next(current) != current,
        reading.broadcast(current) matches Some(text) ==> text == reading.next(current).json(),
{
}

/// Reading the same contents again broadcasts nothing.
pub proof fn law_reading_again_is_silent(current: StateText, reading: Reading)
    ensures
        reading.broadcast(reading.next(current)) is None,
        reading.next(reading.next(current)) == reading.next(current),
{
}

/// Of a state and the broadcasts that follow it, no two neighbours are the same.
pub proof fn law_neighbouring_broadcasts_differ(current: StateText, readings: Seq<Reading>)
    ensures
        ({
            let told = seq![current.json()] + broadcasts_of(current, readings);
            forall|i: int| 0 < i < told.len() ==> told[i - 1] != #[trigger] told[i]
        }),
    decreases readings.len(),
{
    if readings.len() > 0 {
        let fewer = readings.drop_last();
        let known = known_after(current, fewer);
        let before = seq![current.json()] + broadcasts_of(current, fewer);
        let after = seq![current.json()] + broadcasts_of(current, readings);
        law_neighbouring_broadcasts_differ(current, fewer);
        law_broadcasts_keep_up(current, fewer);
        match readings.last().broadcast(known) {
            Some(text) => {
                assert(after == before.push(text));
                let next = readings.last().next(known);
                if text == known.json() {
                    law_broadcasts_are_unambiguous(next, known);
                }
                assert forall|i: int| 0 < i < after.len() implies after[i - 1]
                    != #[trigger] after[i] by {
                    if i < before.len() {
                        assert(before[i - 1] != before[i]);
                    }
                }
            },
            None => {
                assert(after == before);
            },
        }
    }
}

/// Of a state and the broadcasts that follow it, the last is always the state that
/// the daemon knows.
pub proof fn law_broadcasts_keep_up(current: StateText, readings: Seq<Reading>)
    ensures
        (seq![current.json()] + broadcasts_of(current, readings)).last() == known_after(
            current,
            readings,
        ).json(),
    decreases readings.len(),
{
    if readings.len() > 0 {
        law_broadcasts_keep_up(current, readings.drop_last());
        let before = broadcasts_of(current, readings.drop_last());
        let after = broadcasts_of(current, readings);
        if after != before {
            assert((seq![current.json()] + after).last() == after.last());
        }
    }
}

/// A state is its two texts, whatever they are.
pub proof fn law_states_are_their_texts(state: PulseState)
    ensures
        state@.state == state.state@,
        state@.message == state.message@,
{
}

/// After a reading that holds a state, exactly that state is known, whatever was known
/// before; after any other, what was known before. It is broadcast exactly if it differs
/// from the one known before in its state or in its message.
pub proof fn law_readings_are_believed(reading: Reading, current: StateText)
    ensures
        reading matches Reading::State(read) ==> {
            &&& reading.next(current).state == read.state@
            &&& reading.next(current).message == read.message@
            &&& reading.broadcast(current) is Some <==> read.state@ != current.state
                || read.message@ != current.message
            &&& reading.broadcast(current) matches Some(text) ==> text == read@.json()
        },
        !(reading is State) ==> reading.next(current) == current && reading.broadcast(
            current,
        ) is None,
{
    if let Reading::State(read) = reading {
        if read.state@ == current.state && read.message@ == current.message {
            assert(read@ =~= current);
        }
    }
}

/// A new state is passed on, the state that is known already is not, and of a file that
/// could not be read or makes no sense there is a warning that says which.
pub proof fn law_refreshes_fit_readings(refresh: Refresh, reading: Reading, current: StateText)
    requires
        refresh.fits(reading, current),
    ensures
        refresh is WarnUnreadable <==> reading is Unreadable,
        refresh is WarnMalformed <==> reading is Malformed,
        reading matches Reading::State(read) ==> {
            let new = read.state@ != current.state || read.message@ != current.message;
            &&& refresh is Broadcast <==> new
            &&& refresh is Nothing <==> !new
        },
        refresh matches Refresh::Broadcast(text) ==> (reading matches Reading::State(read)
            && text@ == read@.json()),
{
    law_readings_are_believed(reading, current);
}

/// Readings are taken in one after the other, and each that calls for it adds a
/// broadcast.
pub proof fn law_readings_follow_each_other(
    current: StateText,
    first: Seq<Reading>,
    second: Seq<Reading>,
)
    ensures
        known_after(current, first + second) == known_after(known_after(current, first), second),
        broadcasts_of(current, first + second) == broadcasts_of(current, first) + broadcasts_of(
            known_after(current, first),
            second,
        ),
    decreases second.len(),
{
    if second.len() == 0 {
        assert(first + second == first);
    } else {
        law_readings_follow_each_other(current, first, second.drop_last());
        assert((first + second).drop_last() == first + second.drop_last());
        assert((first + second).last() == second.last());
    }
}

/// What one reading adds: the state in it is known, and broadcast if it is new.
pub proof fn law_one_reading(current: StateText, reading: Reading)
    ensures
        known_after(current, seq![reading]) == reading.next(current),
        reading.broadcast(current) matches Some(text) ==> broadcasts_of(current, seq![reading])
            == seq![text],
        reading.broadcast(current) is None ==> broadcasts_of(current, seq![reading]).len() == 0,
{
    assert(seq![reading].drop_last() == Seq::<Reading>::empty());
    reveal_with_fuel(known_after, 2);
    reveal_with_fuel(broadcasts_of, 2);
}

/// A state is told as a JSON object of its two texts, each as a JSON string, on one line
/// to the clients and over four lines in the file.
pub proof fn law_states_are_json_objects(state: StateText)
    ensures
        state.json() == "{\"state\":"@ + quoted(state.state) + ",\"message\":"@ + quoted(
            state.message,
        ) + "}"@,
        state.json_lines() == "{\n  \"state\": "@ + quoted(state.state)
            + ",\n  \"message\": "@ + quoted(state.message) + "\n}"@,
{
}

/// The state that is written where no file is found is idle and says that the daemon has
/// started.
pub proof fn law_first_state()
    ensures
        DaemonState::first_state().state == "idle"@,
        DaemonState::first_state().message == "Daemon started"@,
{
}

} // verus!
