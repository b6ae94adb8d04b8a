//! A client's connection: the state it is greeted with, the broadcasts that are
//! passed on to it, and the actions that are taken from it.
//!
//! A connection goes from one phase to the next as things happen to it. Each
//! event tells [`Session::step`] what came of the last action, or what came in
//! while it was waiting; the answer is what to do next.

use vstd::prelude::*;

use crate::daemon::action::ButtonAction;
use crate::daemon::state::{
    broadcasts_of, known_after, law_broadcasts_keep_up, PulseState, Reading, StateText,
};
use crate::daemon::watch::{
    is_watch, known_at, law_watch_keeps_up, starting, texts_broadcast, WatchStep,
};

verus! {

/// How far a connection has come.
#[derive(Debug, Clone, Copy, PartialEq, Eq, Structural)]
pub enum Phase {
    /// The WebSocket handshake is under way.
    Handshake,
    /// The current state is being sent to a client that has just connected.
    Greeting,
    /// Waiting for a broadcast or for the client.
    Listening,
    /// A broadcast is being sent to the client.
    Forwarding,
    /// The connection is over.
    Closed,
}

/// What happens to a connection.
#[derive(Debug, PartialEq, Eq)]
pub enum SessionEvent {
    /// The handshake succeeded, or did not.
    HandshakeDone(bool),
    /// A text was sent to the client, or could not be.
    Sent(bool),
    /// A broadcast is there to be passed on.
    Broadcast(String),
    /// No more broadcasts can be received.
    BroadcastsEnded,
    /// The client sent an action.
    Action(ButtonAction),
    /// The client sent a text that is no action.
    BadText,
    /// The client sent something other than text.
    OtherMessage,
    /// The client closed the connection.
    ClientClosed,
    /// The connection broke.
    ClientFailed,
}

/// What a connection does next.
#[derive(Debug, PartialEq, Eq)]
pub enum SessionAction {
    /// Send this text to the client.
    Send(String),
    /// Ask for the broadcasts to come, then wait. The daemon's state must not change
    /// hands between the reading of it for the greeting and this: a change made in
    /// between would never reach the client.
    Subscribe,
    /// Do what the action asks for, then wait.
    Handle(ButtonAction),
    /// Warn about a text that is no action, then wait.
    WarnBadText,
    /// Wait.
    Wait,
    /// Give the connection up.
    Stop,
}

/// The phase after an event.
pub open spec fn phase_after(event: SessionEvent) -> Phase {
    match event {
        SessionEvent::HandshakeDone(ok) => if ok {
            Phase::Greeting
        } else {
            Phase::Closed
        },
        SessionEvent::Sent(ok) => if ok {
            Phase::Listening
        } else {
            Phase::Closed
        },
        SessionEvent::Broadcast(_) => Phase::Forwarding,
        SessionEvent::Action(_) => Phase::Listening,
        SessionEvent::BadText => Phase::Listening,
        SessionEvent::OtherMessage => Phase::Listening,
        SessionEvent::BroadcastsEnded => Phase::Closed,
        SessionEvent::ClientClosed => Phase::Closed,
        SessionEvent::ClientFailed => Phase::Closed,
    }
}

/// The event can happen in the phase: a handshake ends once, a text is sent only
/// while one is being sent, and everything else comes in only while waiting.
pub open spec fn can_happen(phase: Phase, event: SessionEvent) -> bool {
    match event {
        SessionEvent::HandshakeDone(_) => phase == Phase::Handshake,
        SessionEvent::Sent(_) => phase == Phase::Greeting || phase == Phase::Forwarding,
        _ => phase == Phase::Listening,
    }
}

/// What a connection in `phase` does after `event`, when the daemon's state is
/// `current`.
pub open spec fn answers(
    action: SessionAction,
    phase: Phase,
    event: SessionEvent,
    current: StateText,
) -> bool {
    match event {
        SessionEvent::HandshakeDone(true) => action matches SessionAction::Send(text) && text@
            == current.json(),
        SessionEvent::Sent(true) => if phase == Phase::Greeting {
            action is Subscribe
        } else {
            action is Wait
        },
        SessionEvent::Broadcast(json) => action matches SessionAction::Send(text) && text@
            == json@,
        SessionEvent::Action(pressed) => action matches SessionAction::Handle(handled) && handled
            == pressed,
        SessionEvent::BadText => action is WarnBadText,
        SessionEvent::OtherMessage => action is Wait,
        _ => action is Stop,
    }
}

/// The daemon's side of a connection.
pub struct Session {
    pub phase: Phase,
}

impl Session {
    /// A connection that has just been accepted.
    pub fn new() -> (session: Session)
        ensures
            session.phase == Phase::Handshake,
    {
        Session { phase: Phase::Handshake }
    }

    /// Whether the event can happen to the connection now.
    pub fn expects(&self, event: &SessionEvent) -> (yes: bool)
        ensures
            yes == can_happen(self.phase, *event),
    {
        match event {
            SessionEvent::HandshakeDone(_) => self.phase == Phase::Handshake,
            SessionEvent::Sent(_) => self.phase == Phase::Greeting || self.phase
                == Phase::Forwarding,
            _ => self.phase == Phase::Listening,
        }
    }

    /// Takes in an event and decides what to do about it.
    pub fn step(&mut self, event: SessionEvent, current: &PulseState) -> (action: SessionAction)
        requires
            can_happen(old(self).phase, event),
        ensures
            final(self).phase == phase_after(event),
            answers(action, old(self).phase, event, current@),
    {
        match event {
            SessionEvent::HandshakeDone(true) => {
                self.phase = Phase::Greeting;
                SessionAction::Send(current.to_json())
            },
            SessionEvent::Sent(true) => {
                let greeted = self.phase == Phase::Greeting;
                self.phase = Phase::Listening;
                if greeted {
                    SessionAction::Subscribe
                } else {
                    SessionAction::Wait
                }
            },
            SessionEvent::Broadcast(json) => {
                self.phase = Phase::Forwarding;
                SessionAction::Send(json)
            },
            SessionEvent::Action(pressed) => SessionAction::Handle(pressed),
            SessionEvent::BadText => SessionAction::WarnBadText,
            SessionEvent::OtherMessage => SessionAction::Wait,
            _ => {
                self.phase = Phase::Closed;
                SessionAction::Stop
            },
        }
    }
}

/// One thing that happened to a connection, the daemon's state at that moment, and
/// what was done about it.
pub struct Step {
    pub event: SessionEvent,
    pub current: StateText,
    pub action: SessionAction,
}

/// The phase that a run of steps leads to from the start of a connection.
pub open spec fn phase_at(steps: Seq<Step>) -> Phase {
    if steps.len() == 0 {
        Phase::Handshake
    } else {
        phase_after(steps.last().event)
    }
}

/// The steps are those of a connection from its start: each event could happen
/// when its turn came, and was answered as [`Session::step`] answers it.
pub open spec fn is_run(steps: Seq<Step>) -> bool
    decreases steps.len(),
{
    steps.len() > 0 ==> {
        let before = steps.drop_last();
        let step = steps.last();
        &&& is_run(before)
        &&& can_happen(phase_at(before), step.event)
        &&& answers(step.action, phase_at(before), step.event, step.current)
    }
}

/// The texts that were sent to the client, in order.
pub open spec fn texts_sent(steps: Seq<Step>) -> Seq<Seq<char>>
    decreases steps.len(),
{
    if steps.len() == 0 {
        Seq::empty()
    } else {
        let before = texts_sent(steps.drop_last());
        match steps.last().action {
            SessionAction::Send(text) => before.push(text@),
            _ => before,
        }
    }
}

/// The broadcasts that came in, in order.
pub open spec fn broadcasts_received(steps: Seq<Step>) -> Seq<Seq<char>>
    decreases steps.len(),
{
    if steps.len() == 0 {
        Seq::empty()
    } else {
        let before = broadcasts_received(steps.drop_last());
        match steps.last().event {
            SessionEvent::Broadcast(json) => before.push(json@),
            _ => before,
        }
    }
}

/// The actions of the client that were handled, in order.
pub open spec fn actions_handled(steps: Seq<Step>) -> Seq<ButtonAction>
    decreases steps.len(),
{
    if steps.len() == 0 {
        Seq::empty()
    } else {
        let before = actions_handled(steps.drop_last());
        match steps.last().action {
            SessionAction::Handle(action) => before.push(action),
            _ => before,
        }
    }
}

/// The actions that the client sent, in order.
pub open spec fn actions_received(steps: Seq<Step>) -> Seq<ButtonAction>
    decreases steps.len(),
{
    if steps.len() == 0 {
        Seq::empty()
    } else {
        let before = actions_received(steps.drop_last());
        match steps.last().event {
            SessionEvent::Action(action) => before.push(action),
            _ => before,
        }
    }
}

/// The client got as far as being greeted.
pub open spec fn was_greeted(steps: Seq<Step>) -> bool {
    steps.len() > 0 && steps[0].event == SessionEvent::HandshakeDone(true)
}

/// Nothing can happen to a connection that is over.
pub proof fn law_closed_is_final(event: SessionEvent)
    ensures
        !can_happen(Phase::Closed, event),
{
}

/// The connection is given up exactly when the phase becomes `Closed`.
pub proof fn law_stop_closes(
    action: SessionAction,
    phase: Phase,
    event: SessionEvent,
    current: StateText,
)
    requires
        can_happen(phase, event),
        answers(action, phase, event, current),
    ensures
        action is Stop <==> phase_after(event) == Phase::Closed,
        action is Send <==> phase_after(event) == Phase::Greeting || phase_after(event)
            == Phase::Forwarding,
{
}

/// Over a whole connection, the texts sent are the greeting, which is the state at
/// the end of the handshake, and then every broadcast that came in, word for word
/// and in order; nothing is sent to a client whose handshake failed.
pub proof fn law_client_is_sent_greeting_and_broadcasts(steps: Seq<Step>)
    requires
        is_run(steps),
    ensures
        texts_sent(steps) == (if was_greeted(steps) {
            seq![steps[0].current.json()] + broadcasts_received(steps)
        } else {
            Seq::empty()
        }),
    decreases steps.len(),
{
    if steps.len() > 1 {
        law_client_is_sent_greeting_and_broadcasts(steps.drop_last());
        assert(steps.drop_last()[0] == steps[0]);
        lemma_handshake_is_first(steps);
    } else if steps.len() == 1 {
        assert(steps.drop_last() == Seq::<Step>::empty());
        assert(phase_at(steps.drop_last()) == Phase::Handshake);
        assert(steps.last() == steps[0]);
        reveal_with_fuel(texts_sent, 2);
        reveal_with_fuel(broadcasts_received, 2);
    }
}

/// A connection that goes on was greeted, and no handshake ends twice.
proof fn lemma_handshake_is_first(steps: Seq<Step>)
    requires
        is_run(steps),
        steps.len() > 1,
    ensures
        was_greeted(steps),
        !(steps.last().event is HandshakeDone),
    decreases steps.len(),
{
    reveal_with_fuel(is_run, 2);
    let before = steps.drop_last();
    if before.len() == 1 {
        assert(before.drop_last() == Seq::<Step>::empty());
        assert(before.last() == steps[0]);
    } else {
        lemma_handshake_is_first(before);
        assert(before[0] == steps[0]);
    }
}

/// Over a whole connection, the actions handled are those that the client sent, in
/// order: texts that are no action, other messages and broadcasts make the daemon
/// do nothing.
pub proof fn law_actions_are_handled_in_order(steps: Seq<Step>)
    requires
        is_run(steps),
    ensures
        actions_handled(steps) == actions_received(steps),
    decreases steps.len(),
{
    if steps.len() > 0 {
        law_actions_are_handled_in_order(steps.drop_last());
    }
}

/// A client always knows the state that the daemon knows: where the broadcasts that
/// came in over a connection are those that the daemon made since the greeting, the
/// last text sent is the current state.
pub proof fn law_clients_keep_up(steps: Seq<Step>, readings: Seq<Reading>)
    requires
        is_run(steps),
        was_greeted(steps),
        broadcasts_received(steps) == broadcasts_of(steps[0].current, readings),
    ensures
        texts_sent(steps).last() == known_after(steps[0].current, readings).json(),
{
    law_client_is_sent_greeting_and_broadcasts(steps);
    law_broadcasts_keep_up(steps[0].current, readings);
}

/// What is written to the state file reaches the clients: where a client is greeted
/// with the state known at some moment after the startup of the watch, and the
/// broadcasts that came in over its connection are those of the watch from that moment
/// on, the last text sent to it is the state that the watch knows.
pub proof fn law_clients_follow_the_watch(
    steps: Seq<Step>,
    watch: Seq<WatchStep>,
    start: StateText,
    joined: int,
)
    requires
        is_run(steps),
        was_greeted(steps),
        is_watch(watch, start),
        0 <= joined <= watch.len(),
        !starting(crate::daemon::watch::phase_at(watch.take(joined))),
        steps[0].current == known_at(watch.take(joined), start),
        broadcasts_received(steps) == texts_broadcast(watch).skip(
            texts_broadcast(watch.take(joined)).len() as int,
        ),
    ensures
        texts_sent(steps).last() == known_at(watch, start).json(),
{
    law_client_is_sent_greeting_and_broadcasts(steps);
    law_watch_keeps_up(watch, start, joined);
}

/// When an event can happen: a handshake ends only while there is one, a text has been
/// sent only while one is being sent, and all else happens only while listening.
pub proof fn law_when_events_happen(phase: Phase, event: SessionEvent)
    ensures
        event is HandshakeDone ==> (can_happen(phase, event) <==> phase == Phase::Handshake),
        event is Sent ==> (can_happen(phase, event) <==> phase == Phase::Greeting || phase
            == Phase::Forwarding),
        !(event is HandshakeDone) && !(event is Sent) ==> (can_happen(phase, event) <==> phase
            == Phase::Listening),
{
}

/// Which phase an event leads to, told by the phases: each is entered by these events
/// and by no others.
pub proof fn law_what_leads_to_a_phase(event: SessionEvent)
    ensures
        phase_after(event) == Phase::Greeting <==> event == SessionEvent::HandshakeDone(true),
        phase_after(event) == Phase::Forwarding <==> event is Broadcast,
        phase_after(event) == Phase::Listening <==> event == SessionEvent::Sent(true)
            || event is Action || event is BadText || event is OtherMessage,
        phase_after(event) == Phase::Closed <==> event == SessionEvent::HandshakeDone(false)
            || event == SessionEvent::Sent(false) || event is BroadcastsEnded
            || event is ClientClosed || event is ClientFailed,
        phase_after(event) != Phase::Handshake,
{
}

/// What makes a connection act, told by the actions, whatever the daemon's state is: it
/// sends the current state when the handshake succeeds and every broadcast as it is; it
/// subscribes when the greeting has been sent; it handles every action as it is; it
/// warns of a text that is none; and it stops when something failed or ended.
pub proof fn law_what_makes_a_connection_act(
    action: SessionAction,
    phase: Phase,
    event: SessionEvent,
    current: StateText,
)
    requires
        answers(action, phase, event, current),
    ensures
        action is Send <==> event == SessionEvent::HandshakeDone(true) || event is Broadcast,
        action matches SessionAction::Send(text) ==> {
            &&& event is HandshakeDone ==> text@ == current.json()
            &&& event matches SessionEvent::Broadcast(json) ==> text@ == json@
        },
        action is Subscribe <==> event == SessionEvent::Sent(true) && phase == Phase::Greeting,
        action is Handle <==> event is Action,
        action matches SessionAction::Handle(handled) ==> event == SessionEvent::Action(handled),
        action is WarnBadText <==> event is BadText,
        action is Wait <==> event is OtherMessage || (event == SessionEvent::Sent(true) && phase
            != Phase::Greeting),
        action is Stop <==> event == SessionEvent::HandshakeDone(false) || event
            == SessionEvent::Sent(false) || event is BroadcastsEnded || event is ClientClosed
            || event is ClientFailed,
{
}

/// Each step of a run could happen after those before it, and was answered.
proof fn lemma_step_of_run(steps: Seq<Step>, n: int)
    requires
        is_run(steps),
        0 <= n < steps.len(),
    ensures
        is_run(steps.take(n)),
        can_happen(phase_at(steps.take(n)), steps[n].event),
        answers(steps[n].action, phase_at(steps.take(n)), steps[n].event, steps[n].current),
    decreases steps.len(),
{
    if n == steps.len() - 1 {
        assert(steps.take(n) == steps.drop_last());
    } else {
        lemma_step_of_run(steps.drop_last(), n);
        assert(steps.drop_last().take(n) == steps.take(n));
        assert(steps.drop_last()[n] == steps[n]);
    }
}

/// A client is subscribed exactly once, right after its greeting was sent, whatever the
/// daemon's state is: the step after the handshake subscribes if the greeting was sent,
/// and no other step does.
pub proof fn law_clients_are_subscribed_once(steps: Seq<Step>, at: int)
    requires
        is_run(steps),
        0 <= at < steps.len(),
    ensures
        steps[at].action is Subscribe <==> at == 1 && steps[at].event == SessionEvent::Sent(true),
        at == 0 ==> steps[at].event is HandshakeDone,
        at > 0 ==> steps[0].event == SessionEvent::HandshakeDone(true),
        at == 1 ==> steps[at].event is Sent,
{
    lemma_step_of_run(steps, at);
    lemma_step_of_run(steps, 0);
    assert(steps.take(0) == Seq::<Step>::empty());
    law_what_makes_a_connection_act(
        steps[at].action,
        phase_at(steps.take(at)),
        steps[at].event,
        steps[at].current,
    );
    if at > 0 {
        assert(steps.take(at).last() == steps[at - 1]);
        lemma_handshake_is_first(steps);
        if at > 1 {
            lemma_step_of_run(steps, at - 1);
            lemma_not_greeted_again(steps, at - 1);
        }
    }
}

/// Only the first step of a run ends a handshake.
proof fn lemma_not_greeted_again(steps: Seq<Step>, at: int)
    requires
        is_run(steps),
        0 < at < steps.len(),
    ensures
        !(steps[at].event is HandshakeDone),
{
    lemma_step_of_run(steps, at);
    assert(steps.take(at).last() == steps[at - 1]);
}

/// While a connection lasts it takes everything in: after a greeting or a broadcast that
/// was sent, and after anything that a client sends, it listens again, and whatever can
/// come in then can happen.
pub proof fn law_connections_keep_listening(event: SessionEvent, next: SessionEvent)
    requires
        event == SessionEvent::Sent(true) || event is Action || event is BadText
            || event is OtherMessage,
        !(next is HandshakeDone),
        !(next is Sent),
    ensures
        can_happen(phase_after(event), next),
{
}

} // verus!
