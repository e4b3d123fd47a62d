use gqgmcmqtt::clock::Timestamp;
use gqgmcmqtt::consts::POLL_TIME;
use gqgmcmqtt::errors::FatalError;
use gqgmcmqtt::ipc::{IPCMessage, InboundMessage};
use gqgmcmqtt::orchestrator::{PollAction, PollEvent, PollPhase, PollState, Probe};
use gqgmcmqtt::payload::Payload;

fn at() -> Timestamp {
    Timestamp { secs: 100, nanos: 0 }
}

fn awaiting_cpm() -> PollPhase {
    PollPhase::AwaitCpm { model: "GMC-500".to_string(), serial: "12345".to_string() }
}

fn sent_topic(action: &PollAction) -> String {
    match action {
        PollAction::Send(IPCMessage::Outbound(p)) => p.topic.clone(),
        other => panic!("expected a send, got {:?}", other),
    }
}

#[test]
fn loop_starts_by_asking_for_the_version() {
    let (phase, action) = PollPhase::start();
    assert!(matches!(phase, PollPhase::AwaitVersion));
    assert!(matches!(action, PollAction::Query(Probe::Version)));
    assert_eq!(phase.state(), PollState::Polling);
}

#[test]
fn full_cycle_sends_discovery_then_state_then_sleeps() {
    let (phase, _) = PollPhase::start();
    let (phase, action) = phase.step_at(PollEvent::Version("GMC-500".to_string()), at());
    assert!(matches!(action, PollAction::Query(Probe::Serial)));
    let (phase, action) = phase.step_at(PollEvent::Serial("12345".to_string()), at());
    assert!(matches!(action, PollAction::Query(Probe::Cpm)));
    let (phase, action) = phase.step_at(PollEvent::Cpm(42), at());
    assert_eq!(sent_topic(&action), "homeassistant/sensor/12345/geiger_counter_cpm/config");
    match &action {
        PollAction::Send(IPCMessage::Outbound(p)) => assert!(matches!(p.payload, Payload::Config(_))),
        _ => unreachable!(),
    }
    let (phase, action) = phase.step_at(PollEvent::Sent, at());
    assert_eq!(sent_topic(&action), "gqgmcmqtt/12345/geiger_counter_cpm");
    match &action {
        PollAction::Send(IPCMessage::Outbound(p)) => {
            assert!(matches!(p.payload, Payload::CurrentState(_)))
        }
        _ => unreachable!(),
    }
    let (phase, action) = phase.step_at(PollEvent::Sent, at());
    assert!(matches!(phase, PollPhase::Waiting));
    match action {
        PollAction::Sleep(secs) => assert_eq!(secs, POLL_TIME),
        other => panic!("expected a sleep, got {:?}", other),
    }
    let (phase, action) = phase.step_at(PollEvent::IntervalElapsed, at());
    assert!(matches!(phase, PollPhase::AwaitVersion));
    assert!(matches!(action, PollAction::Query(Probe::Version)));
}

#[test]
fn failed_read_skips_the_cycle_at_every_question() {
    let (phase, action) = PollPhase::AwaitVersion.step_at(PollEvent::ReadFailed, at());
    assert!(matches!(phase, PollPhase::Waiting));
    assert!(matches!(action, PollAction::Sleep(5)));
    let (phase, action) =
        PollPhase::AwaitSerial { model: "m".to_string() }.step_at(PollEvent::ReadFailed, at());
    assert!(matches!(phase, PollPhase::Waiting));
    assert!(matches!(action, PollAction::Sleep(5)));
    let (phase, action) = awaiting_cpm().step_at(PollEvent::ReadFailed, at());
    assert!(matches!(phase, PollPhase::Waiting));
    assert!(matches!(action, PollAction::Sleep(5)));
}

#[test]
fn zero_count_sends_nothing() {
    let (phase, action) = awaiting_cpm().step_at(PollEvent::Cpm(0), at());
    assert!(matches!(phase, PollPhase::Waiting));
    assert!(matches!(action, PollAction::Sleep(5)));
}

#[test]
fn full_channel_gets_the_same_request_again() {
    let (phase, action) = awaiting_cpm().step_at(PollEvent::Cpm(7), at());
    let handed_back = match action {
        PollAction::Send(m) => m,
        other => panic!("expected a send, got {:?}", other),
    };
    let (phase, action) = phase.step_at(PollEvent::ChannelFull(handed_back), at());
    assert_eq!(sent_topic(&action), "homeassistant/sensor/12345/geiger_counter_cpm/config");
    match &phase {
        PollPhase::Sending { pending } => assert_eq!(pending.len(), 1),
        other => panic!("expected to be sending, got {:?}", other),
    }
    let (_, action) = phase.step_at(PollEvent::Sent, at());
    assert_eq!(sent_topic(&action), "gqgmcmqtt/12345/geiger_counter_cpm");
}

#[test]
fn handed_back_request_is_offered_again_in_any_polling_phase() {
    let stray = IPCMessage::Inbound(InboundMessage { topic: "t".to_string(), payload: vec![1, 2] });
    let (phase, action) = PollPhase::Waiting.step_at(PollEvent::ChannelFull(stray), at());
    assert!(matches!(phase, PollPhase::Waiting));
    match action {
        PollAction::Send(IPCMessage::Inbound(m)) => {
            assert_eq!(m.topic, "t");
            assert_eq!(m.payload, vec![1, 2]);
        }
        other => panic!("expected a send, got {:?}", other),
    }
}

#[test]
fn closed_channel_is_fatal_in_every_polling_phase() {
    let phases = vec![
        PollPhase::AwaitVersion,
        PollPhase::AwaitSerial { model: "m".to_string() },
        awaiting_cpm(),
        PollPhase::Sending { pending: Vec::new() },
        PollPhase::Waiting,
    ];
    for phase in phases {
        let (next, action) =
            phase.step_at(PollEvent::ChannelClosed("channel closed".to_string()), at());
        assert_eq!(next.state(), PollState::Terminating);
        match action {
            PollAction::Exit(FatalError::ChannelClosed(detail)) => {
                assert_eq!(detail, "channel closed")
            }
            other => panic!("expected an exit, got {:?}", other),
        }
    }
}

#[test]
fn terminating_is_never_left() {
    let error = FatalError::ChannelClosed("gone".to_string());
    let events = vec![
        PollEvent::Version("v".to_string()),
        PollEvent::Serial("s".to_string()),
        PollEvent::Cpm(9),
        PollEvent::ReadFailed,
        PollEvent::Sent,
        PollEvent::ChannelClosed("again".to_string()),
        PollEvent::IntervalElapsed,
    ];
    let mut phase = PollPhase::Terminating { error };
    for event in events {
        let (next, action) = phase.step_at(event, at());
        match (&next, &action) {
            (
                PollPhase::Terminating { error: FatalError::ChannelClosed(kept) },
                PollAction::Exit(FatalError::ChannelClosed(told)),
            ) => {
                assert_eq!(kept, "gone");
                assert_eq!(told, "gone");
            }
            other => panic!("left the terminating state: {:?}", other),
        }
        phase = next;
    }
}

#[test]
fn unexpected_events_are_ignored() {
    let (phase, action) = PollPhase::AwaitVersion.step_at(PollEvent::Sent, at());
    assert!(matches!(phase, PollPhase::AwaitVersion));
    assert!(matches!(action, PollAction::Ignore));
    let (phase, action) = PollPhase::Waiting.step_at(PollEvent::Cpm(3), at());
    assert!(matches!(phase, PollPhase::Waiting));
    assert!(matches!(action, PollAction::Ignore));
    let (phase, action) = awaiting_cpm().step_at(PollEvent::IntervalElapsed, at());
    assert!(matches!(phase, PollPhase::AwaitCpm { .. }));
    assert!(matches!(action, PollAction::Ignore));
    let (phase, action) =
        PollPhase::Sending { pending: Vec::new() }.step_at(PollEvent::ReadFailed, at());
    assert!(matches!(phase, PollPhase::Sending { .. }));
    assert!(matches!(action, PollAction::Ignore));
}

#[test]
fn step_with_the_wall_clock_stamps_the_state() {
    let (_, action) = awaiting_cpm().step(PollEvent::Cpm(42));
    assert_eq!(sent_topic(&action), "homeassistant/sensor/12345/geiger_counter_cpm/config");
    let (phase, _) = awaiting_cpm().step(PollEvent::Cpm(42));
    let (_, action) = phase.step(PollEvent::Sent);
    match action {
        PollAction::Send(IPCMessage::Outbound(p)) => match p.payload {
            Payload::CurrentState(s) => assert!(s.last_seen.secs > 1_600_000_000),
            other => panic!("expected the state, got {:?}", other),
        },
        other => panic!("expected a send, got {:?}", other),
    }
}
