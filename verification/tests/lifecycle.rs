use wintermute_stt::bus::{
    incoming, outgoing, request_kind, Payload, ReloadModelRequest, Request, AUDIO_TOPIC_PREFIX, STT_COMMAND_PREFIX,
};
use wintermute_stt::lifecycle::{
    heartbeat_period_secs, session_name, Action, Event, Lifecycle, Line, Link, Stage, CLAIM_PATH,
    CLAIM_SESSION, CLAIM_TTL_SECS,
};

fn done() -> Event {
    Event::Answer(Ok(()))
}

fn failed() -> Event {
    Event::Answer(Err("broken pipe".to_string()))
}

fn no_payload() -> Payload {
    Payload {
        as_start: Err("missing field `ts`".to_string()),
        as_chunk: Err("missing field `seq`".to_string()),
        as_end: Err("missing field `duration_ms`".to_string()),
        as_reload: Err("missing field `model`".to_string()),
    }
}

fn event(topic: &str, data: Payload) -> Event {
    Event::Incoming(Line::Event { topic: topic.to_string(), data })
}

/// A daemon that reads lines, with its claim or without.
fn serving(claimed: bool) -> Lifecycle {
    let (mut daemon, _) = Lifecycle::start(7);
    for _ in 0..100 {
        if daemon.stage() == Stage::Reading {
            assert_eq!(daemon.holds_claim(), claimed);
            return daemon;
        }
        let claiming = daemon.stage() == Stage::Claiming;
        let answer = if claiming && !claimed { failed() } else { done() };
        daemon.step(answer, 0);
    }
    panic!("never serves");
}

fn reload(model: &str) -> Event {
    let mut data = no_payload();
    data.as_reload = Ok(ReloadModelRequest { model: model.to_string() });
    event("wm.stt.reload_model", data)
}

#[test]
fn stt_claim_path_matches_daemon_unit() {
    assert_eq!(CLAIM_PATH, "agorabus://daemon/wm-stt");
}

#[test]
fn daemon_starts_in_order() {
    let (mut daemon, first) = Lifecycle::start(4321);
    assert!(matches!(first, Action::Connect(Link::Subscribe)));
    match daemon.step(done(), 0) {
        Action::Announce { link, session, pid, purpose } => {
            assert_eq!(link, Link::Subscribe);
            assert_eq!(session, "wm-stt-4321-sub");
            assert_eq!(pid, 4321);
            assert_eq!(purpose, "wm-stt control subscribe");
        }
        other => panic!("expected an announcement, got {other:?}"),
    }
    assert!(matches!(daemon.step(done(), 0), Action::Subscribe(p) if p == AUDIO_TOPIC_PREFIX));
    assert!(matches!(daemon.step(done(), 0), Action::Subscribe(p) if p == STT_COMMAND_PREFIX));
    assert!(matches!(daemon.step(done(), 0), Action::Connect(Link::Publish)));
    match daemon.step(done(), 0) {
        Action::Announce { link, session, pid, purpose } => {
            assert_eq!(link, Link::Publish);
            assert_eq!(session, "wm-stt-4321");
            assert_eq!(pid, 4321);
            assert_eq!(purpose, "wm-stt publish path");
        }
        other => panic!("expected an announcement, got {other:?}"),
    }
    assert!(matches!(daemon.step(done(), 0), Action::StartHeartbeat(Link::Publish)));
    assert!(matches!(daemon.step(done(), 0), Action::Connect(Link::Claim)));
    match daemon.step(done(), 0) {
        Action::Announce { link, session, purpose, .. } => {
            assert_eq!(link, Link::Claim);
            assert_eq!(session, CLAIM_SESSION);
            assert_eq!(purpose, "wm-stt claim holder");
        }
        other => panic!("expected an announcement, got {other:?}"),
    }
    match daemon.step(done(), 0) {
        Action::HoldClaim { session, path, ttl_secs } => {
            assert_eq!(session, "wm-stt-claim");
            assert_eq!(path, CLAIM_PATH);
            assert_eq!(ttl_secs, CLAIM_TTL_SECS);
            assert_eq!(ttl_secs, 30);
        }
        other => panic!("expected a claim, got {other:?}"),
    }
    assert!(matches!(daemon.step(done(), 0), Action::StartHeartbeat(Link::Subscribe)));
    assert!(daemon.holds_claim());
    assert!(matches!(daemon.step(done(), 0), Action::ReadLine));
}

#[test]
fn missing_bus_is_no_failure() {
    let (mut daemon, _) = Lifecycle::start(1);
    assert!(matches!(daemon.step(Event::Unreachable, 0), Action::Exit(Ok(()))));
    assert_eq!(daemon.stage(), Stage::Ended);
}

#[test]
fn failure_to_connect_announce_or_subscribe_ends_the_daemon() {
    for steps in [0, 1, 2, 3, 4, 5] {
        let (mut daemon, _) = Lifecycle::start(1);
        for _ in 0..steps {
            daemon.step(done(), 0);
        }
        match daemon.step(failed(), 0) {
            Action::Exit(Err(cause)) => assert_eq!(cause, "broken pipe"),
            other => panic!("expected an end after {steps} steps, got {other:?}"),
        }
    }
}

#[test]
fn daemon_starts_without_a_claim() {
    for steps in [7, 8, 9] {
        let (mut daemon, _) = Lifecycle::start(1);
        for _ in 0..steps {
            daemon.step(done(), 0);
        }
        let next = daemon.step(failed(), 0);
        assert!(matches!(next, Action::StartHeartbeat(Link::Subscribe)));
        assert!(!daemon.holds_claim());
        assert!(matches!(daemon.step(done(), 0), Action::ReadLine));
    }
}

#[test]
fn request_is_dispatched_and_the_next_line_read() {
    let mut daemon = serving(true);
    match daemon.step(reload("small.en"), 42) {
        Action::Dispatch { request: Request::ReloadModel(r), now_ms } => {
            assert_eq!(r.model, "small.en");
            assert_eq!(now_ms, 42);
        }
        other => panic!("expected a dispatch, got {other:?}"),
    }
    assert!(matches!(daemon.step(done(), 43), Action::ReadLine));
}

#[test]
fn failed_dispatch_is_reported_and_the_next_line_read() {
    let mut daemon = serving(true);
    daemon.step(reload("small.en"), 42);
    match daemon.step(failed(), 50) {
        Action::Report(e) => {
            assert_eq!(e.kind, "bus");
            assert_eq!(e.message, "dispatch: broken pipe");
            assert_eq!(e.ts, 50);
        }
        other => panic!("expected a report, got {other:?}"),
    }
    assert!(matches!(daemon.step(failed(), 51), Action::ReadLine));
}

#[test]
fn malformed_payload_is_reported() {
    let mut daemon = serving(false);
    match daemon.step(event("wm.audio.speech.start", no_payload()), 9) {
        Action::Report(e) => {
            assert_eq!(e.kind, "bus");
            assert_eq!(e.message, "decode: payload decode failed: missing field `ts`");
            assert_eq!(e.ts, 9);
        }
        other => panic!("expected a report, got {other:?}"),
    }
    assert!(matches!(daemon.step(done(), 10), Action::ReadLine));
}

#[test]
fn own_events_and_other_lines_are_passed_over() {
    let mut daemon = serving(true);
    let own = [
        outgoing::PARTIAL,
        outgoing::FINAL,
        outgoing::UNCERTAIN,
        outgoing::ERROR,
        outgoing::MODEL_LOADED,
    ];
    for topic in own {
        assert!(matches!(daemon.step(event(topic, no_payload()), 1), Action::ReadLine));
    }
    assert!(matches!(daemon.step(Event::Incoming(Line::Undecodable), 1), Action::ReadLine));
    assert!(matches!(daemon.step(Event::Incoming(Line::Reply), 1), Action::ReadLine));
}

#[test]
fn claim_is_released_before_the_end() {
    for last in [Event::Closed, failed()] {
        let mut daemon = serving(true);
        assert!(matches!(daemon.step(last, 0), Action::ReleaseClaim));
        assert!(matches!(daemon.step(failed(), 0), Action::Exit(Ok(()))));
        assert!(!daemon.holds_claim());
    }
    let mut daemon = serving(false);
    assert!(matches!(daemon.step(Event::Closed, 0), Action::Exit(Ok(()))));
}

#[test]
fn what_is_not_waited_for_is_passed_over() {
    let (mut daemon, _) = Lifecycle::start(1);
    assert!(matches!(daemon.step(Event::Closed, 0), Action::Wait));
    assert!(matches!(daemon.step(reload("small.en"), 0), Action::Wait));
    assert_eq!(daemon.stage(), Stage::Connecting(Link::Subscribe));
    let mut daemon = serving(true);
    assert!(matches!(daemon.step(Event::Unreachable, 0), Action::Wait));
    assert!(matches!(daemon.step(done(), 0), Action::Wait));
    assert_eq!(daemon.stage(), Stage::Reading);
}

#[test]
fn handled_topics_are_subscribed() {
    let handled = [
        incoming::SPEECH_START,
        incoming::SPEECH_CHUNK,
        incoming::SPEECH_END,
        incoming::RELOAD_MODEL,
    ];
    for topic in handled {
        assert!(request_kind(topic).is_some());
        assert!(topic.starts_with(AUDIO_TOPIC_PREFIX) || topic.starts_with(STT_COMMAND_PREFIX));
    }
    assert!(request_kind(AUDIO_TOPIC_PREFIX).is_none());
}

#[test]
fn heartbeats_come_twice_within_the_timeout() {
    assert_eq!(heartbeat_period_secs(60), 30);
    assert_eq!(heartbeat_period_secs(61), 30);
}

#[test]
fn sessions_differ_by_connection() {
    assert_eq!(session_name(Link::Subscribe, 0), "wm-stt-0-sub");
    assert_eq!(session_name(Link::Publish, u32::MAX), "wm-stt-4294967295");
    assert_eq!(session_name(Link::Claim, 5), "wm-stt-claim");
}
