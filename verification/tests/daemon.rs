use pulse::daemon::action::{
    action_kind, add_rejection, handle_action, learn_file, rejection, timestamp_now, timestamp_of,
    ActionKind, ButtonAction,
};
use pulse::daemon::session::{Phase, Session, SessionAction, SessionEvent};
use pulse::daemon::state::{listen_address, DaemonState, PulseState, Reading, Refresh};
use pulse::daemon::watch::{
    may_change_state, FileEvent, Watch, WatchAction, WatchEvent, WatchPhase, SETTLE_MS,
};
use serde_json::Value;

fn button(action: &str, detail: &str) -> ButtonAction {
    ButtonAction { action: action.to_string(), detail: detail.to_string() }
}

fn entry(timestamp: &str, detail: &str) -> Value {
    let mut fields = serde_json::Map::new();
    fields.insert("timestamp".to_string(), Value::String(timestamp.to_string()));
    fields.insert("action".to_string(), Value::String("reject_learn".to_string()));
    fields.insert("detail".to_string(), Value::String(detail.to_string()));
    Value::Object(fields)
}

#[test]
fn states_are_told_as_json() {
    let state = PulseState::new("working", "Agent started");
    assert_eq!(state.to_json(), r#"{"state":"working","message":"Agent started"}"#);
    assert_eq!(
        state.to_json_lines(),
        "{\n  \"state\": \"working\",\n  \"message\": \"Agent started\"\n}"
    );
}

#[test]
fn texts_are_escaped_in_json() {
    let state = PulseState::new("a\"b\\c", "\u{8}\t\n\u{c}\r\u{0}\u{1f}\u{7f}/\u{e9}\u{1f600}");
    assert_eq!(
        state.to_json(),
        "{\"state\":\"a\\\"b\\\\c\",\"message\":\"\\b\\t\\n\\f\\r\\u0000\\u001f\u{7f}/\u{e9}\u{1f600}\"}"
    );
    let read: Value = serde_json::from_str(&state.to_json()).unwrap();
    assert_eq!(read["state"], state.state);
    assert_eq!(read["message"], state.message);
    assert_eq!(serde_json::from_str::<Value>(&state.to_json_lines()).unwrap(), read);
}

#[test]
fn every_character_is_escaped_as_serde_json_does() {
    for n in (0..0x800u32).chain(0xfff0..0x10010) {
        if let Some(c) = char::from_u32(n) {
            let text = format!("{}", c);
            let mut expected = "{\"state\":".to_string();
            expected.push_str(&serde_json::to_string(&text).unwrap());
            expected.push_str(",\"message\":\"\"}");
            assert_eq!(PulseState::new(&text, "").to_json(), expected);
        }
    }
}

#[test]
fn states_compare_word_for_word() {
    let state = PulseState::new("idle", "x");
    assert!(state.same(&PulseState::new("idle", "x")));
    assert!(!state.same(&PulseState::new("idle", "")));
    assert!(!state.same(&PulseState::new("done", "x")));
    assert!(state.clone().same(&state));
}

#[test]
fn the_daemon_starts_idle() {
    assert_eq!(DaemonState::new().current, PulseState::new("idle", ""));
    assert_eq!(DaemonState::initial_file(true), None);
    assert_eq!(
        DaemonState::initial_file(false).unwrap(),
        "{\n  \"state\": \"idle\",\n  \"message\": \"Daemon started\"\n}"
    );
}

#[test]
fn only_changes_are_broadcast() {
    let mut daemon = DaemonState::new();
    let asked = || Reading::State(PulseState::new("needs_input", "Approve this?"));
    assert_eq!(
        daemon.refresh(asked()),
        Refresh::Broadcast(r#"{"state":"needs_input","message":"Approve this?"}"#.to_string())
    );
    assert_eq!(daemon.refresh(asked()), Refresh::Nothing);
    assert_eq!(daemon.refresh(Reading::Malformed), Refresh::WarnMalformed);
    assert_eq!(daemon.refresh(Reading::Unreadable), Refresh::WarnUnreadable);
    assert_eq!(daemon.current, PulseState::new("needs_input", "Approve this?"));
    assert!(matches!(
        daemon.refresh(Reading::State(PulseState::new("needs_input", ""))),
        Refresh::Broadcast(_)
    ));
}

#[test]
fn loading_takes_over_a_state_only() {
    let mut daemon = DaemonState::new();
    daemon.load(Reading::Malformed);
    assert_eq!(daemon.current, PulseState::new("idle", ""));
    daemon.load(Reading::State(PulseState::new("done", "ok")));
    assert_eq!(daemon.current, PulseState::new("done", "ok"));
    daemon.load(Reading::Unreadable);
    assert_eq!(daemon.current, PulseState::new("done", "ok"));
}

#[test]
fn clients_that_miss_nothing_keep_up() {
    let mut daemon = DaemonState::new();
    let mut told = daemon.current.to_json();
    for (state, message) in [("working", "a"), ("working", "a"), ("done", ""), ("idle", "")] {
        if let Refresh::Broadcast(text) = daemon.refresh(Reading::State(PulseState::new(state, message))) {
            told = text;
        }
        daemon.refresh(Reading::Malformed);
        assert_eq!(told, daemon.current.to_json());
    }
}

#[test]
fn creation_and_modification_matter() {
    assert!(may_change_state(FileEvent::Modify));
    assert!(may_change_state(FileEvent::Create));
    for event in [FileEvent::Any, FileEvent::Access, FileEvent::Remove, FileEvent::Other] {
        assert!(!may_change_state(event));
    }
}

#[test]
fn a_watch_seeds_loads_and_settles() {
    let mut daemon = DaemonState::new();
    let mut watch = Watch::new();
    assert!(watch.expects(&WatchEvent::Probed(false)));
    assert!(!watch.expects(&WatchEvent::Changed));
    let WatchAction::Seed(text) = watch.step(WatchEvent::Probed(false), &mut daemon) else {
        panic!("no seed")
    };
    assert_eq!(Some(text), DaemonState::initial_file(false));
    assert_eq!(watch.step(WatchEvent::Seeded, &mut daemon), WatchAction::Read);
    let first = PulseState::new("idle", "Daemon started");
    assert_eq!(
        watch.step(WatchEvent::Read(Reading::State(first.clone())), &mut daemon),
        WatchAction::StartWatching
    );
    assert_eq!(daemon.current, first);
    assert_eq!(watch.step(WatchEvent::Changed, &mut daemon), WatchAction::Settle(50));
    assert_eq!(SETTLE_MS, 50);
    assert!(watch.expects(&WatchEvent::Settled));
    assert_eq!(watch.step(WatchEvent::Settled, &mut daemon), WatchAction::Read);
    let next = PulseState::new("working", "");
    assert_eq!(
        watch.step(WatchEvent::Read(Reading::State(next.clone())), &mut daemon),
        WatchAction::Finish(Refresh::Broadcast(next.to_json()))
    );
    assert_eq!(watch.step(WatchEvent::ChangesEnded, &mut daemon), WatchAction::Stop);
    assert_eq!(watch.phase, WatchPhase::Stopped);
    assert!(!watch.expects(&WatchEvent::Changed));
}

#[test]
fn a_whole_watch_tells_every_change_once() {
    let mut daemon = DaemonState::new();
    let mut watch = Watch::new();
    let mut told = Vec::new();
    let state = |state: &str, message: &str| Reading::State(PulseState::new(state, message));
    let mut events = vec![
        WatchEvent::Probed(false),
        WatchEvent::Seeded,
        WatchEvent::Read(state("idle", "Daemon started")),
    ];
    for reading in [
        state("idle", "Daemon started"),
        state("working", "a"),
        Reading::Malformed,
        state("working", "a"),
        state("working", "b"),
        Reading::Unreadable,
        state("idle", "Daemon started"),
    ] {
        events.push(WatchEvent::Changed);
        events.push(WatchEvent::Settled);
        events.push(WatchEvent::Read(reading));
    }
    events.push(WatchEvent::ChangesEnded);
    for event in events {
        assert!(watch.expects(&event));
        match watch.step(event, &mut daemon) {
            WatchAction::Finish(Refresh::Broadcast(text)) => told.push(text),
            WatchAction::Seed(_) => assert!(told.is_empty()),
            _ => {}
        }
    }
    assert_eq!(
        told,
        vec![
            PulseState::new("working", "a").to_json(),
            PulseState::new("working", "b").to_json(),
            PulseState::new("idle", "Daemon started").to_json(),
        ]
    );
    assert_eq!(watch.phase, WatchPhase::Stopped);
}

#[test]
fn a_watch_leaves_an_existing_file_alone() {
    let mut daemon = DaemonState::new();
    let mut watch = Watch::new();
    assert_eq!(watch.step(WatchEvent::Probed(true), &mut daemon), WatchAction::Read);
    assert_eq!(watch.phase, WatchPhase::Loading);
    assert_eq!(
        watch.step(WatchEvent::Read(Reading::Malformed), &mut daemon),
        WatchAction::StartWatching
    );
    assert_eq!(daemon.current, PulseState::new("idle", ""));
}

#[test]
fn words_name_actions() {
    assert_eq!(action_kind("approve"), ActionKind::Approve);
    assert_eq!(action_kind("reject_learn"), ActionKind::RejectLearn);
    assert_eq!(action_kind("security_scan"), ActionKind::SecurityScan);
    assert_eq!(action_kind("explain"), ActionKind::Explain);
    assert_eq!(action_kind("Approve"), ActionKind::Unknown);
    assert_eq!(action_kind(""), ActionKind::Unknown);
}

#[test]
fn every_action_is_logged() {
    let plan = handle_action(&button("approve", "looks good"), b"/tmp/p/state.json", "1700000000");
    assert_eq!(plan.kind, ActionKind::Approve);
    assert_eq!(plan.log_path, b"/tmp/p/actions.log".to_vec());
    assert_eq!(plan.log_line, "[1700000000] action=approve detail=looks good\n");
    assert_eq!(plan.console_line, "[1700000000] action=approve detail=looks good");
    assert_eq!(plan.learn_path, None);
    let plan = handle_action(&button("dance", " \n"), b"s", "5");
    assert_eq!(plan.kind, ActionKind::Unknown);
    assert_eq!(plan.log_line, "[5] action=dance detail= \n\n");
    assert_eq!(plan.console_line, "[5] action=dance detail=");
    assert_eq!(plan.learn_path, None);
}

#[test]
fn rejections_are_kept() {
    let plan = handle_action(&button("reject_learn", "no"), b"/tmp/p/state.json", "7");
    assert_eq!(plan.learn_path, Some(b"/tmp/p/learn.json".to_vec()));
    assert_eq!(rejection("7", "no"), entry("7", "no"));
}

#[test]
fn rejections_accumulate() {
    let one = learn_file(None, "1", "first \"quoted\"");
    assert_eq!(
        one,
        "[\n  {\n    \"action\": \"reject_learn\",\n    \"detail\": \"first \\\"quoted\\\"\",\n    \"timestamp\": \"1\"\n  }\n]"
    );
    let two = learn_file(Some(&one), "2", "second");
    let three = learn_file(Some(&two), "3", "");
    assert_eq!(
        serde_json::from_str::<Vec<Value>>(&three).unwrap(),
        vec![entry("1", "first \"quoted\""), entry("2", "second"), entry("3", "")]
    );
}

#[test]
fn a_spoiled_collection_starts_anew() {
    for spoiled in ["", "{}", "[1,", "null"] {
        assert_eq!(learn_file(Some(spoiled), "1", "x"), learn_file(None, "1", "x"));
    }
    let mixed = learn_file(Some("[1, null]"), "1", "x");
    assert_eq!(
        serde_json::from_str::<Vec<Value>>(&mixed).unwrap(),
        vec![Value::from(1), Value::Null, entry("1", "x")]
    );
}

#[test]
fn foreign_entries_are_kept() {
    let old = r#"["1.5e3 \"\\", -7, 18446744073709551615, -9223372036854775808, true, null, {"a": [[], {"b": 0}, "é."]}]"#;
    let before = serde_json::from_str::<Vec<Value>>(old).unwrap();
    let new = learn_file(Some(old), "1", "x");
    let mut expected = before;
    expected.push(entry("1", "x"));
    assert_eq!(serde_json::from_str::<Vec<Value>>(&new).unwrap(), expected);
    expected.push(entry("2", "y"));
    let newer = learn_file(Some(&new), "2", "y");
    assert_eq!(serde_json::from_str::<Vec<Value>>(&newer).unwrap(), expected);
}

#[test]
fn entries_are_added_at_the_end() {
    assert_eq!(add_rejection(None, Value::Null), vec![Value::Null]);
    assert_eq!(
        add_rejection(Some(vec![Value::Bool(true)]), Value::Null),
        vec![Value::Bool(true), Value::Null]
    );
}

#[test]
fn timestamps_are_seconds() {
    assert_eq!(timestamp_of(Some(1_700_000_000)), "1700000000");
    assert_eq!(timestamp_of(None), "0");
    let now: u64 = timestamp_now().parse().unwrap();
    assert!(now > 1_600_000_000);
}

#[test]
fn the_server_listens_everywhere() {
    assert_eq!(listen_address(3456), "0.0.0.0:3456");
    assert_eq!(listen_address(0), "0.0.0.0:0");
    assert_eq!(listen_address(65535), "0.0.0.0:65535");
}

fn listening() -> Session {
    let mut session = Session::new();
    session.step(SessionEvent::HandshakeDone(true), &PulseState::new("idle", ""));
    session.step(SessionEvent::Sent(true), &PulseState::new("idle", ""));
    session
}

#[test]
fn a_client_is_greeted_first() {
    let current = PulseState::new("working", "x");
    let mut session = Session::new();
    assert!(session.expects(&SessionEvent::HandshakeDone(true)));
    assert!(!session.expects(&SessionEvent::BadText));
    assert_eq!(
        session.step(SessionEvent::HandshakeDone(true), &current),
        SessionAction::Send(current.to_json())
    );
    assert_eq!(session.phase, Phase::Greeting);
    assert!(!session.expects(&SessionEvent::Broadcast("x".to_string())));
    assert_eq!(session.step(SessionEvent::Sent(true), &current), SessionAction::Subscribe);
    assert_eq!(session.phase, Phase::Listening);
}

#[test]
fn a_failed_start_ends_the_connection() {
    let current = PulseState::new("idle", "");
    let mut session = Session::new();
    assert_eq!(session.step(SessionEvent::HandshakeDone(false), &current), SessionAction::Stop);
    assert_eq!(session.phase, Phase::Closed);
    let mut session = Session::new();
    session.step(SessionEvent::HandshakeDone(true), &current);
    assert_eq!(session.step(SessionEvent::Sent(false), &current), SessionAction::Stop);
    assert_eq!(session.phase, Phase::Closed);
    assert!(!session.expects(&SessionEvent::Sent(true)));
    assert!(!session.expects(&SessionEvent::ClientClosed));
}

#[test]
fn broadcasts_are_passed_on() {
    let current = PulseState::new("idle", "");
    let mut session = listening();
    assert_eq!(
        session.step(SessionEvent::Broadcast("{}".to_string()), &current),
        SessionAction::Send("{}".to_string())
    );
    assert_eq!(session.phase, Phase::Forwarding);
    assert_eq!(session.step(SessionEvent::Sent(true), &current), SessionAction::Wait);
    assert_eq!(session.phase, Phase::Listening);
    session.step(SessionEvent::Broadcast("{}".to_string()), &current);
    assert_eq!(session.step(SessionEvent::Sent(false), &current), SessionAction::Stop);
}

#[test]
fn only_actions_are_handled() {
    let current = PulseState::new("idle", "");
    let mut session = listening();
    assert_eq!(
        session.step(SessionEvent::Action(button("approve", "")), &current),
        SessionAction::Handle(button("approve", ""))
    );
    assert_eq!(session.step(SessionEvent::BadText, &current), SessionAction::WarnBadText);
    assert_eq!(session.step(SessionEvent::OtherMessage, &current), SessionAction::Wait);
    assert_eq!(session.phase, Phase::Listening);
    for end in [SessionEvent::ClientClosed, SessionEvent::ClientFailed, SessionEvent::BroadcastsEnded] {
        let mut session = listening();
        assert_eq!(session.step(end, &current), SessionAction::Stop);
        assert_eq!(session.phase, Phase::Closed);
    }
}

#[test]
fn a_run_sends_the_greeting_and_the_broadcasts() {
    let mut daemon = DaemonState::new();
    let mut session = Session::new();
    let mut sent = Vec::new();
    let mut handled = Vec::new();
    let mut broadcasts = Vec::new();
    let mut events = vec![SessionEvent::HandshakeDone(true), SessionEvent::Sent(true)];
    let greeting = daemon.current.to_json();
    for (state, message) in [("working", "a"), ("working", "a"), ("done", "b")] {
        if let Refresh::Broadcast(json) = daemon.refresh(Reading::State(PulseState::new(state, message))) {
            broadcasts.push(json.clone());
            events.push(SessionEvent::Broadcast(json));
            events.push(SessionEvent::Sent(true));
        }
        events.push(SessionEvent::Action(button("approve", message)));
        events.push(SessionEvent::BadText);
    }
    events.push(SessionEvent::ClientClosed);
    for event in events {
        assert!(session.expects(&event));
        match session.step(event, &PulseState::new("idle", "")) {
            SessionAction::Send(text) => sent.push(text),
            SessionAction::Handle(action) => handled.push(action.detail),
            _ => {}
        }
    }
    assert_eq!(sent[0], greeting);
    assert_eq!(sent[1..], broadcasts[..]);
    assert_eq!(sent.last(), Some(&daemon.current.to_json()));
    assert_eq!(handled, vec!["a", "a", "b"]);
    assert_eq!(session.phase, Phase::Closed);
}

#[test]
fn what_is_written_reaches_a_client() {
    let mut daemon = DaemonState::new();
    let mut watch = Watch::new();
    watch.step(WatchEvent::Probed(true), &mut daemon);
    watch.step(WatchEvent::Read(Reading::State(PulseState::new("done", ""))), &mut daemon);
    let mut session = Session::new();
    let mut sent = Vec::new();
    let mut happen = |event: SessionEvent, current: &PulseState| {
        assert!(session.expects(&event));
        if let SessionAction::Send(text) = session.step(event, current) {
            sent.push(text);
        }
    };
    happen(SessionEvent::HandshakeDone(true), &daemon.current);
    happen(SessionEvent::Sent(true), &daemon.current);
    for (state, message) in [("working", "a"), ("working", "a"), ("needs_input", "b")] {
        watch.step(WatchEvent::Changed, &mut daemon);
        watch.step(WatchEvent::Settled, &mut daemon);
        let reading = Reading::State(PulseState::new(state, message));
        if let WatchAction::Finish(Refresh::Broadcast(text)) =
            watch.step(WatchEvent::Read(reading), &mut daemon)
        {
            happen(SessionEvent::Broadcast(text), &daemon.current);
            happen(SessionEvent::Sent(true), &daemon.current);
        }
    }
    assert_eq!(
        sent,
        vec![
            PulseState::new("done", "").to_json(),
            PulseState::new("working", "a").to_json(),
            daemon.current.to_json(),
        ]
    );
}

#[test]
fn different_states_are_told_differently() {
    let tricky = PulseState::new("a\",\"message\":\"b", "");
    let plain = PulseState::new("a", "b");
    assert_ne!(tricky.to_json(), plain.to_json());
    assert_ne!(PulseState::new("a", "").to_json(), PulseState::new("", "a").to_json());
}
