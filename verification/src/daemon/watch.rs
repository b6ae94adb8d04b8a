//! Watching the state file.
//!
//! The watch goes from one phase to the next as things come about. Each event
//! tells [`Watch::step`] what came of the last action; the answer is what to do
//! next.

use vstd::prelude::*;

use crate::daemon::state::{
    broadcasts_of, known_after, law_neighbouring_broadcasts_differ, law_readings_are_believed,
    law_refreshes_fit_readings, DaemonState, Reading, Refresh, StateText,
};

verus! {

/// How long the state file is left alone after a change before it is read, since
/// one write may show as several changes (ms).
pub const SETTLE_MS: u64 = 50;

/// What the operating system tells of a file.
#[derive(Debug, Clone, Copy, PartialEq, Eq, Structural)]
pub enum FileEvent {
    Any,
    Access,
    Create,
    Modify,
    Remove,
    Other,
}

/// Whether the state file may have new contents after `event`.
pub fn may_change_state(event: FileEvent) -> (yes: bool)
    ensures
        yes == (event == FileEvent::Modify || event == FileEvent::Create),
{
    matches!(event, FileEvent::Modify | FileEvent::Create)
}

/// How far the watch has come.
#[derive(Debug, Clone, Copy, PartialEq, Eq, Structural)]
pub enum WatchPhase {
    /// Finding out whether there is a state file.
    Probing,
    /// Writing the first state file.
    Seeding,
    /// Reading the state file for the first time.
    Loading,
    /// Waiting for the state file to change.
    Waiting,
    /// Waiting for a change to settle.
    Settling,
    /// Reading the state file after a change.
    Reading,
    /// There are no more changes to wait for.
    Stopped,
}

/// What comes about while watching.
#[derive(Debug, PartialEq, Eq)]
pub enum WatchEvent {
    /// There is a state file, or there is none.
    Probed(bool),
    /// The first state file was written, as far as that was possible.
    Seeded,
    /// The state file was read.
    Read(Reading),
    /// The state file may have changed.
    Changed,
    /// Changes can no longer be noticed.
    ChangesEnded,
    /// A change has had its time to settle, and changes noticed since then were
    /// dropped.
    Settled,
}

/// What the watch does next.
#[derive(Debug, PartialEq, Eq)]
pub enum WatchAction {
    /// Write this to the state file.
    Seed(String),
    /// Read the state file.
    Read,
    /// Start to take notice of changes, then wait for one.
    StartWatching,
    /// Wait so many milliseconds, then drop the changes noticed meanwhile.
    Settle(u64),
    /// Do what the reading calls for, then wait for a change.
    Finish(Refresh),
    /// Give up watching.
    Stop,
}

/// The event can come about in the phase.
pub open spec fn can_come(phase: WatchPhase, event: WatchEvent) -> bool {
    match event {
        WatchEvent::Probed(_) => phase == WatchPhase::Probing,
        WatchEvent::Seeded => phase == WatchPhase::Seeding,
        WatchEvent::Read(_) => phase == WatchPhase::Loading || phase == WatchPhase::Reading,
        WatchEvent::Changed => phase == WatchPhase::Waiting,
        WatchEvent::ChangesEnded => phase == WatchPhase::Waiting,
        WatchEvent::Settled => phase == WatchPhase::Settling,
    }
}

/// The phase after an event.
pub open spec fn watch_after(event: WatchEvent) -> WatchPhase {
    match event {
        WatchEvent::Probed(exists) => if exists {
            WatchPhase::Loading
        } else {
            WatchPhase::Seeding
        },
        WatchEvent::Seeded => WatchPhase::Loading,
        WatchEvent::Read(_) => WatchPhase::Waiting,
        WatchEvent::Changed => WatchPhase::Settling,
        WatchEvent::ChangesEnded => WatchPhase::Stopped,
        WatchEvent::Settled => WatchPhase::Reading,
    }
}

/// The state known after an event: what was read last.
pub open spec fn known_by(event: WatchEvent, current: StateText) -> StateText {
    match event {
        WatchEvent::Read(reading) => reading.next(current),
        _ => current,
    }
}

/// What the watch does after `event`, when the state known was `current`.
pub open spec fn responds(
    action: WatchAction,
    phase: WatchPhase,
    event: WatchEvent,
    current: StateText,
) -> bool {
    match event {
        WatchEvent::Probed(true) => action is Read,
        WatchEvent::Probed(false) => action matches WatchAction::Seed(text) && text@
            == DaemonState::first_state().json_lines(),
        WatchEvent::Seeded => action is Read,
        WatchEvent::Read(reading) => if phase == WatchPhase::Loading {
            action is StartWatching
        } else {
            action matches WatchAction::Finish(refresh) && refresh.fits(reading, current)
        },
        WatchEvent::Changed => action == WatchAction::Settle(SETTLE_MS),
        WatchEvent::ChangesEnded => action is Stop,
        WatchEvent::Settled => action is Read,
    }
}

/// The watch over the state file.
pub struct Watch {
    pub phase: WatchPhase,
}

impl Watch {
    /// A watch that has not looked at the state file yet.
    pub fn new() -> (watch: Watch)
        ensures
            watch.phase == WatchPhase::Probing,
    {
        Watch { phase: WatchPhase::Probing }
    }

    /// Whether the event can come about now.
    pub fn expects(&self, event: &WatchEvent) -> (yes: bool)
        ensures
            yes == can_come(self.phase, *event),
    {
        match event {
            WatchEvent::Probed(_) => self.phase == WatchPhase::Probing,
            WatchEvent::Seeded => self.phase == WatchPhase::Seeding,
            WatchEvent::Read(_) => self.phase == WatchPhase::Loading || self.phase
                == WatchPhase::Reading,
            WatchEvent::Changed => self.phase == WatchPhase::Waiting,
            WatchEvent::ChangesEnded => self.phase == WatchPhase::Waiting,
            WatchEvent::Settled => self.phase == WatchPhase::Settling,
        }
    }

    /// Takes in an event, with what it changes about the state known to the
    /// daemon, and decides what to do about it.
    pub fn step(&mut self, event: WatchEvent, daemon: &mut DaemonState) -> (action: WatchAction)
        requires
            can_come(old(self).phase, event),
        ensures
            final(self).phase == watch_after(event),
            final(daemon).current@ == known_by(event, old(daemon).current@),
            responds(action, old(self).phase, event, old(daemon).current@),
    {
        match event {
            WatchEvent::Probed(exists) => match DaemonState::initial_file(exists) {
                Some(text) => {
                    self.phase = WatchPhase::Seeding;
                    WatchAction::Seed(text)
                },
                None => {
                    self.phase = WatchPhase::Loading;
                    WatchAction::Read
                },
            },
            WatchEvent::Seeded => {
                self.phase = WatchPhase::Loading;
                WatchAction::Read
            },
            WatchEvent::Read(reading) => {
                let first = self.phase == WatchPhase::Loading;
                self.phase = WatchPhase::Waiting;
                if first {
                    daemon.load(reading);
                    WatchAction::StartWatching
                } else {
                    WatchAction::Finish(daemon.refresh(reading))
                }
            },
            WatchEvent::Changed => {
                self.phase = WatchPhase::Settling;
                WatchAction::Settle(SETTLE_MS)
            },
            WatchEvent::ChangesEnded => {
                self.phase = WatchPhase::Stopped;
                WatchAction::Stop
            },
            WatchEvent::Settled => {
                self.phase = WatchPhase::Reading;
                WatchAction::Read
            },
        }
    }
}

/// One thing that came about while watching, the state known before it, and what was
/// done about it.
pub struct WatchStep {
    pub event: WatchEvent,
    pub current: StateText,
    pub action: WatchAction,
}

/// The phase that the steps of a watch lead to from its start.
pub open spec fn phase_at(steps: Seq<WatchStep>) -> WatchPhase {
    if steps.len() == 0 {
        WatchPhase::Probing
    } else {
        watch_after(steps.last().event)
    }
}

/// The state known after the steps of a watch, where `start` was known before them.
pub open spec fn known_at(steps: Seq<WatchStep>, start: StateText) -> StateText {
    if steps.len() == 0 {
        start
    } else {
        known_by(steps.last().event, steps.last().current)
    }
}

/// The steps are those of a watch from its start, where the daemon knew `start`:
/// each event could come about when its turn came, found the state that the steps
/// before it had left, and was answered as [`Watch::step`] answers it.
pub open spec fn is_watch(steps: Seq<WatchStep>, start: StateText) -> bool
    decreases steps.len(),
{
    steps.len() > 0 ==> {
        let before = steps.drop_last();
        let step = steps.last();
        &&& is_watch(before, start)
        &&& can_come(phase_at(before), step.event)
        &&& step.current == known_at(before, start)
        &&& responds(step.action, phase_at(before), step.event, step.current)
    }
}

/// The state that the watch began with: what it found in the file at startup, or
/// `start` as long as it has not looked, or found no state.
pub open spec fn loaded(steps: Seq<WatchStep>, start: StateText) -> StateText
    decreases steps.len(),
{
    if steps.len() == 0 {
        start
    } else {
        match steps.last().event {
            WatchEvent::Read(reading) => if phase_at(steps.drop_last()) == WatchPhase::Loading {
                reading.next(start)
            } else {
                loaded(steps.drop_last(), start)
            },
            _ => loaded(steps.drop_last(), start),
        }
    }
}

/// What the file was found to hold after each of its changes, in order.
pub open spec fn later_readings(steps: Seq<WatchStep>) -> Seq<Reading>
    decreases steps.len(),
{
    if steps.len() == 0 {
        Seq::empty()
    } else {
        let before = later_readings(steps.drop_last());
        match steps.last().event {
            WatchEvent::Read(reading) => if phase_at(steps.drop_last()) == WatchPhase::Reading {
                before.push(reading)
            } else {
                before
            },
            _ => before,
        }
    }
}

/// The texts that were sent to all clients, in order.
pub open spec fn texts_broadcast(steps: Seq<WatchStep>) -> Seq<Seq<char>>
    decreases steps.len(),
{
    if steps.len() == 0 {
        Seq::empty()
    } else {
        let before = texts_broadcast(steps.drop_last());
        match steps.last().action {
            WatchAction::Finish(refresh) => match refresh.text() {
                Some(text) => before.push(text),
                None => before,
            },
            _ => before,
        }
    }
}

/// The watch is still at its startup.
pub open spec fn starting(phase: WatchPhase) -> bool {
    phase == WatchPhase::Probing || phase == WatchPhase::Seeding || phase == WatchPhase::Loading
}

/// Until the file has been read for the first time, nothing was read after a change
/// and the state known is the one before the watch.
proof fn lemma_startup(steps: Seq<WatchStep>, start: StateText)
    requires
        is_watch(steps, start),
        starting(phase_at(steps)),
    ensures
        later_readings(steps).len() == 0,
        loaded(steps, start) == start,
        known_at(steps, start) == start,
    decreases steps.len(),
{
    if steps.len() > 0 {
        lemma_startup(steps.drop_last(), start);
    }
}

/// The texts of a watch are the broadcasts that its readings after startup call for,
/// and the state known is the one that these readings lead to.
proof fn lemma_watch_follows_readings(steps: Seq<WatchStep>, start: StateText)
    requires
        is_watch(steps, start),
    ensures
        texts_broadcast(steps) == broadcasts_of(loaded(steps, start), later_readings(steps)),
        known_at(steps, start) == known_after(loaded(steps, start), later_readings(steps)),
    decreases steps.len(),
{
    if steps.len() > 0 {
        let before = steps.drop_last();
        lemma_watch_follows_readings(before, start);
        if phase_at(before) == WatchPhase::Loading {
            lemma_startup(before, start);
        } else if phase_at(before) == WatchPhase::Reading {
            assert(later_readings(steps).drop_last() == later_readings(before));
        }
    }
}

/// Over a whole watch, what is found at startup is taken over in silence, and the
/// texts sent to the clients are those that the readings after it call for: every
/// change of the state, word for word and in order, and nothing twice in a row. The
/// state known is always the one that was told last, or found at startup.
pub proof fn law_watch_broadcasts_changes(steps: Seq<WatchStep>, start: StateText)
    requires
        is_watch(steps, start),
    ensures
        texts_broadcast(steps) == broadcasts_of(loaded(steps, start), later_readings(steps)),
        known_at(steps, start) == known_after(loaded(steps, start), later_readings(steps)),
        forall|i: int|
            0 < i < texts_broadcast(steps).len() ==> texts_broadcast(steps)[i - 1]
                != #[trigger] texts_broadcast(steps)[i],
        texts_broadcast(steps).len() > 0 ==> texts_broadcast(steps)[0] != loaded(
            steps,
            start,
        ).json(),
{
    lemma_watch_follows_readings(steps, start);
    let first = loaded(steps, start);
    let texts = texts_broadcast(steps);
    let told = seq![first.json()] + texts;
    law_neighbouring_broadcasts_differ(first, later_readings(steps));
    assert forall|i: int| 0 < i < texts.len() implies texts[i - 1] != #[trigger] texts[i] by {
        assert(told[i] != told[i + 1]);
    }
    if texts.len() > 0 {
        assert(told[0] != told[1]);
    }
}

/// Whoever joins a watch after its startup, knowing the state at that moment, and is
/// told every text from there on, always knows the state that the daemon knows.
pub proof fn law_watch_keeps_up(steps: Seq<WatchStep>, start: StateText, joined: int)
    requires
        is_watch(steps, start),
        0 <= joined <= steps.len(),
        !starting(phase_at(steps.take(joined))),
    ensures
        ({
            let missed = texts_broadcast(steps.take(joined));
            let known = known_at(steps.take(joined), start);
            &&& missed.is_prefix_of(texts_broadcast(steps))
            &&& (seq![known.json()] + texts_broadcast(steps).skip(missed.len() as int)).last()
                == known_at(steps, start).json()
            &&& !starting(phase_at(steps))
        }),
    decreases steps.len(),
{
    let missed = texts_broadcast(steps.take(joined));
    let known = known_at(steps.take(joined), start);
    if joined == steps.len() {
        assert(steps.take(joined) == steps);
        assert(texts_broadcast(steps).skip(missed.len() as int) == Seq::<Seq<char>>::empty());
    } else {
        let before = steps.drop_last();
        assert(before.take(joined) == steps.take(joined));
        law_watch_keeps_up(before, start, joined);
        let told = texts_broadcast(before).skip(missed.len() as int);
        let texts = texts_broadcast(steps);
        if texts.len() > texts_broadcast(before).len() {
            assert(texts.skip(missed.len() as int) == told.push(texts.last()));
            assert((seq![known.json()] + told.push(texts.last())).last() == texts.last());
        }
    }
}

/// The state file is written only once in a watch: first of all, where there was
/// none, with the first state.
pub proof fn law_watch_writes_only_a_missing_file(
    steps: Seq<WatchStep>,
    start: StateText,
    at: int,
)
    requires
        is_watch(steps, start),
        0 <= at < steps.len(),
    ensures
        steps[at].action is Seed <==> at == 0 && steps[at].event == WatchEvent::Probed(false),
        steps[at].action matches WatchAction::Seed(text) ==> text@
            == DaemonState::first_state().json_lines(),
    decreases steps.len(),
{
    let before = steps.drop_last();
    if at < before.len() {
        law_watch_writes_only_a_missing_file(before, start, at);
        assert(before[at] == steps[at]);
    } else {
        assert(steps[at] == steps.last());
        assert(before.len() == at);
        assert(at > 0 ==> !(watch_after(before.last().event) is Probing));
    }
}

/// What is found at startup is taken over in silence: only a reading after a
/// change can be broadcast.
pub proof fn law_startup_is_silent(
    action: WatchAction,
    phase: WatchPhase,
    event: WatchEvent,
    current: StateText,
)
    requires
        can_come(phase, event),
        responds(action, phase, event, current),
        action is Finish,
    ensures
        phase == WatchPhase::Reading,
        event is Read,
        watch_after(event) == WatchPhase::Waiting,
{
}

/// The state changes hands only when the file is read, and the file is read after
/// a change only once the change has settled.
pub proof fn law_reads_follow_settling(
    action: WatchAction,
    phase: WatchPhase,
    event: WatchEvent,
    current: StateText,
)
    requires
        can_come(phase, event),
        responds(action, phase, event, current),
    ensures
        known_by(event, current) != current ==> event is Read,
        watch_after(event) == WatchPhase::Reading ==> action is Read && event is Settled && phase
            == WatchPhase::Settling,
        watch_after(event) == WatchPhase::Settling ==> action == WatchAction::Settle(SETTLE_MS),
{
}

/// A watch that has stopped stays so.
pub proof fn law_stopped_is_final(event: WatchEvent)
    ensures
        !can_come(WatchPhase::Stopped, event),
{
}

/// When an event can come about: the file is probed for first of all and only then, a
/// first file is written only after that, readings come only while reading, changes and
/// their end only while waiting, and settling only ends while settling.
pub proof fn law_when_events_come(phase: WatchPhase, exists: bool, reading: Reading)
    ensures
        can_come(phase, WatchEvent::Probed(exists)) <==> phase == WatchPhase::Probing,
        can_come(phase, WatchEvent::Seeded) <==> phase == WatchPhase::Seeding,
        can_come(phase, WatchEvent::Read(reading)) <==> phase == WatchPhase::Loading || phase
            == WatchPhase::Reading,
        can_come(phase, WatchEvent::Changed) <==> phase == WatchPhase::Waiting,
        can_come(phase, WatchEvent::ChangesEnded) <==> phase == WatchPhase::Waiting,
        can_come(phase, WatchEvent::Settled) <==> phase == WatchPhase::Settling,
{
}

/// Which phase an event leads to, told by the phases: each is entered by these events
/// and by no others, and the first is never entered again.
pub proof fn law_what_leads_to_a_phase(event: WatchEvent)
    ensures
        watch_after(event) == WatchPhase::Seeding <==> event == WatchEvent::Probed(false),
        watch_after(event) == WatchPhase::Loading <==> event == WatchEvent::Probed(true)
            || event is Seeded,
        watch_after(event) == WatchPhase::Waiting <==> event is Read,
        watch_after(event) == WatchPhase::Settling <==> event is Changed,
        watch_after(event) == WatchPhase::Reading <==> event is Settled,
        watch_after(event) == WatchPhase::Stopped <==> event is ChangesEnded,
        watch_after(event) != WatchPhase::Probing,
{
}

/// What makes the watch act, told by the actions: it writes the first state where there
/// is no file; it reads a file that is there, that it has written or that has settled;
/// it starts watching after the first reading; it lets every change settle for 50 ms; it
/// finishes with what every later reading calls for; and it stops when changes end.
pub proof fn law_what_makes_the_watch_act(
    action: WatchAction,
    phase: WatchPhase,
    event: WatchEvent,
    current: StateText,
)
    requires
        responds(action, phase, event, current),
    ensures
        action is Seed <==> event == WatchEvent::Probed(false),
        action matches WatchAction::Seed(text) ==> text@ == (StateText {
            state: "idle"@,
            message: "Daemon started"@,
        }).json_lines(),
        action is Read <==> event == WatchEvent::Probed(true) || event is Seeded
            || event is Settled,
        action is StartWatching <==> event is Read && phase == WatchPhase::Loading,
        action is Settle <==> event is Changed,
        action matches WatchAction::Settle(ms) ==> ms == 50,
        action is Finish <==> event is Read && phase != WatchPhase::Loading,
        action matches WatchAction::Finish(refresh) ==> (event matches WatchEvent::Read(reading)
            && refresh.fits(reading, current)),
        action is Stop <==> event is ChangesEnded,
{
}

/// After every reading that holds a state exactly that state is known, at startup as
/// well as later; nothing else changes what is known. A later reading is broadcast
/// exactly if its state is new, in state or message.
pub proof fn law_watch_believes_the_file(
    action: WatchAction,
    phase: WatchPhase,
    event: WatchEvent,
    current: StateText,
)
    requires
        responds(action, phase, event, current),
    ensures
        event matches WatchEvent::Read(Reading::State(read)) ==> {
            &&& known_by(event, current).state == read.state@
            &&& known_by(event, current).message == read.message@
            &&& phase != WatchPhase::Loading && (read.state@ != current.state || read.message@
                != current.message) ==> (action matches WatchAction::Finish(
                Refresh::Broadcast(text),
            ) && text@ == read@.json())
            &&& phase != WatchPhase::Loading && read.state@ == current.state && read.message@
                == current.message ==> action == WatchAction::Finish(Refresh::Nothing)
        },
        !(event matches WatchEvent::Read(Reading::State(_))) ==> known_by(event, current)
            == current,
{
    if let WatchEvent::Read(reading) = event {
        law_readings_are_believed(reading, current);
        if let WatchAction::Finish(refresh) = action {
            law_refreshes_fit_readings(refresh, reading, current);
        }
    }
}

} // verus!
