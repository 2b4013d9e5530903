use megalodon::error::Error;
use megalodon::streaming::{backoff, RetryPolicy, Session, SessionAction, SessionEvent, SessionState};

fn policy(max_retries: u32) -> RetryPolicy {
    RetryPolicy { max_retries, base_delay_ms: 100, max_delay_ms: 1000 }
}

fn connected(max_retries: u32) -> Session {
    let mut s = Session::new(policy(max_retries));
    assert!(matches!(s.step::<u32>(SessionEvent::Open), SessionAction::Connect));
    assert!(matches!(s.step::<u32>(SessionEvent::Handshake), SessionAction::Nothing));
    assert_eq!(s.state, SessionState::Connected);
    s
}

#[test]
fn backoff_doubles_up_to_the_cap() {
    let p = policy(10);
    let got: Vec<u64> = (0..7).map(|n| backoff(&p, n)).collect();
    assert_eq!(got, vec![100, 200, 400, 800, 1000, 1000, 1000]);
    assert_eq!(backoff(&RetryPolicy { max_retries: 1, base_delay_ms: 5000, max_delay_ms: 1000 }, 0), 1000);
    assert_eq!(backoff(&RetryPolicy { max_retries: 1, base_delay_ms: 0, max_delay_ms: 1000 }, 30), 0);
    assert_eq!(backoff(&RetryPolicy { max_retries: 1, base_delay_ms: 1, max_delay_ms: u64::MAX }, u32::MAX), u64::MAX);
}

#[test]
fn frames_are_delivered_in_order_and_malformed_ones_dropped() {
    let mut s = connected(3);
    assert!(matches!(s.step(SessionEvent::Frame(Some(1u32))), SessionAction::Deliver(1)));
    assert!(matches!(s.step::<u32>(SessionEvent::Frame(None)), SessionAction::Nothing));
    assert!(matches!(s.step(SessionEvent::Frame(Some(2u32))), SessionAction::Deliver(2)));
    assert_eq!(s.state, SessionState::Connected);
}

#[test]
fn drop_reconnects_with_growing_waits_then_closes() {
    let mut s = connected(3);
    match s.step::<u32>(SessionEvent::Dropped(String::from("reset"))) {
        SessionAction::Retry { delay_ms, message } => {
            assert_eq!(delay_ms, 100);
            assert_eq!(message, "reset");
        }
        other => panic!("unexpected {:?}", other),
    }
    assert_eq!(s.state, SessionState::Reconnecting);
    let mut waits = vec![];
    for _ in 0..2 {
        assert!(matches!(s.step::<u32>(SessionEvent::BackoffElapsed), SessionAction::Connect));
        assert_eq!(s.state, SessionState::Connecting);
        match s.step::<u32>(SessionEvent::HandshakeFailed(String::from("refused"))) {
            SessionAction::Retry { delay_ms, .. } => waits.push(delay_ms),
            other => panic!("unexpected {:?}", other),
        }
        assert_eq!(s.state, SessionState::Reconnecting);
    }
    assert_eq!(waits, vec![200, 400]);
    assert!(matches!(s.step::<u32>(SessionEvent::BackoffElapsed), SessionAction::Connect));
    match s.step::<u32>(SessionEvent::HandshakeFailed(String::from("refused"))) {
        SessionAction::Fatal(Error::StreamClosed { attempts }) => assert_eq!(attempts, 3),
        other => panic!("unexpected {:?}", other),
    }
    assert_eq!(s.state, SessionState::Closed);
    assert!(matches!(s.step(SessionEvent::Frame(Some(9u32))), SessionAction::Nothing));
    assert!(matches!(s.step::<u32>(SessionEvent::Open), SessionAction::Nothing));
    assert_eq!(s.state, SessionState::Closed);
}

#[test]
fn successful_reconnect_resets_attempts() {
    let mut s = connected(2);
    assert!(matches!(s.step::<u32>(SessionEvent::Dropped(String::from("x"))), SessionAction::Retry { .. }));
    assert_eq!(s.attempts, 1);
    assert!(matches!(s.step::<u32>(SessionEvent::BackoffElapsed), SessionAction::Connect));
    assert!(matches!(s.step::<u32>(SessionEvent::Handshake), SessionAction::Nothing));
    assert_eq!(s.attempts, 0);
    assert!(matches!(s.step(SessionEvent::Frame(Some(5u32))), SessionAction::Deliver(5)));
}

#[test]
fn cancel_closes_from_any_live_state() {
    let mut s = connected(2);
    assert!(matches!(s.step::<u32>(SessionEvent::Cancel), SessionAction::Close));
    assert_eq!(s.state, SessionState::Closed);
    assert!(matches!(s.step::<u32>(SessionEvent::Cancel), SessionAction::Nothing));
    let mut d = Session::new(policy(2));
    assert!(matches!(d.step::<u32>(SessionEvent::Cancel), SessionAction::Close));
    assert!(matches!(d.step::<u32>(SessionEvent::Open), SessionAction::Nothing));
}

#[test]
fn no_retries_means_a_drop_is_fatal() {
    let mut s = connected(0);
    assert!(matches!(
        s.step::<u32>(SessionEvent::Dropped(String::from("x"))),
        SessionAction::Fatal(Error::StreamClosed { attempts: 0 })
    ));
    assert_eq!(s.state, SessionState::Closed);
}

#[test]
fn client_hands_out_a_disconnected_session() {
    let c = megalodon::generator(megalodon::SNS::Pleroma, String::from("https://a.test"), None, None);
    let mut s = c.streaming_session(policy(2));
    assert_eq!(s.state, SessionState::Disconnected);
    assert_eq!(s.attempts, 0);
    assert_eq!(s.policy, policy(2));
    assert!(matches!(s.step::<u32>(SessionEvent::Open), SessionAction::Connect));
}

#[test]
fn reconnect_resumes_events() {
    let mut s = connected(1);
    assert!(matches!(s.step::<u32>(SessionEvent::Dropped(String::from("x"))), SessionAction::Retry { .. }));
    assert!(matches!(s.step::<u32>(SessionEvent::BackoffElapsed), SessionAction::Connect));
    assert!(matches!(s.step::<u32>(SessionEvent::Handshake), SessionAction::Nothing));
    assert_eq!(s.attempts, 0);
    assert!(matches!(s.step(SessionEvent::Frame(Some(8u32))), SessionAction::Deliver(8)));
}
