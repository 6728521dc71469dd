use raflow::protocol::ServerMessage;
use raflow::session::apply_server_message;
use raflow::state_machine::{ConnectionState, StateError, StateMachine};

#[test]
fn test_initial_state() {
    let sm = StateMachine::default();
    assert_eq!(sm.current_state().name(), "idle");
}

#[test]
fn test_transition_to_connecting() {
    let mut sm = StateMachine::default();
    assert!(sm.transition_to_connecting().is_ok());
    assert_eq!(sm.current_state().name(), "connecting");
}

#[test]
fn test_transition_to_connected() {
    let mut sm = StateMachine::default();
    sm.transition_to_connecting().unwrap();
    assert!(sm.transition_to_connected("session-123".to_string()).is_ok());
    assert!(sm.current_state().is_connected());
}

#[test]
fn test_transition_to_error() {
    let mut sm = StateMachine::default();
    sm.transition_to_connecting().unwrap();
    sm.transition_to_error("Connection failed".to_string());
    assert_eq!(sm.current_state().name(), "error");
}

#[test]
fn test_retry_logic() {
    let mut sm = StateMachine::new(3, 10);
    sm.transition_to_connecting().unwrap();
    sm.transition_to_error_at("Test error".to_string(), 0);

    assert!(sm.current_state().can_retry());

    assert!(sm.should_retry_at(20));

    assert!(sm.transition_to_connecting().is_ok());
}

#[test]
fn test_max_retries() {
    let mut sm = StateMachine::new(2, 1);

    sm.transition_to_connecting().unwrap();
    sm.transition_to_error_at("Error 1".to_string(), 0);

    sm.transition_to_connecting().unwrap();
    sm.transition_to_error_at("Error 2".to_string(), 2);

    let result = sm.transition_to_connecting();
    assert!(result.is_err());
}

#[test]
fn test_connection_duration() {
    let mut sm = StateMachine::default();
    sm.transition_to_connecting().unwrap();
    sm.transition_to_connected_at("test".to_string(), 5).unwrap();

    let duration = sm.connection_duration_at(15);
    assert!(duration.is_some());
    assert!(duration.unwrap() >= 10);
}

#[test]
fn test_reset() {
    let mut sm = StateMachine::default();
    sm.transition_to_connecting().unwrap();
    sm.transition_to_connected("test".to_string()).unwrap();

    sm.reset();
    assert_eq!(sm.current_state().name(), "idle");
}

#[test]
fn test_get_state() {
    let sm = StateMachine::default();
    assert_eq!(sm.current_state().name(), "idle");
}

#[test]
fn test_disconnect() {
    let mut sm = StateMachine::default();
    sm.transition_to_disconnecting();
    assert_eq!(sm.current_state().name(), "disconnecting");
}

#[test]
fn retry_not_due_before_retry_time() {
    let mut sm = StateMachine::new(3, 2000);
    sm.transition_to_connecting().unwrap();
    sm.transition_to_error_at("down".to_string(), 100);
    assert!(!sm.should_retry_at(2099));
    assert!(sm.should_retry_at(2100));
    assert!(sm.should_retry_at(5000));
    match sm.current_state() {
        ConnectionState::Error { message, retry_at, attempt } => {
            assert_eq!(message, "down");
            assert_eq!(*retry_at, 2100);
            assert_eq!(*attempt, 1);
        }
        other => panic!("unexpected {:?}", other),
    }
}

#[test]
fn attempts_count_up_and_stop_at_the_bound() {
    let mut sm = StateMachine::new(3, 0);
    sm.transition_to_connecting().unwrap();
    for expected in 2..=3u32 {
        sm.transition_to_error_at("x".to_string(), 0);
        sm.transition_to_connecting().unwrap();
        match sm.current_state() {
            ConnectionState::Connecting { attempt } => assert_eq!(*attempt, expected),
            other => panic!("unexpected {:?}", other),
        }
    }
    sm.transition_to_error_at("x".to_string(), 0);
    assert!(!sm.should_retry_at(10));
    assert!(!sm.current_state().can_retry());
    match sm.transition_to_connecting() {
        Err(StateError::MaxRetriesReached(n)) => assert_eq!(n, 3),
        other => panic!("unexpected {:?}", other),
    }
    assert_eq!(sm.current_state().name(), "error");
}

#[test]
fn connected_only_from_connecting_with_an_id() {
    let mut sm = StateMachine::default();
    match sm.transition_to_connected("s".to_string()) {
        Err(StateError::InvalidTransition { from, to }) => {
            assert_eq!(from, "idle");
            assert_eq!(to, "connected");
        }
        other => panic!("unexpected {:?}", other),
    }
    sm.transition_to_connecting().unwrap();
    assert!(sm.transition_to_connected(String::new()).is_err());
    assert_eq!(sm.current_state().name(), "connecting");
    assert!(sm.transition_to_connected_at("abc".to_string(), 42).is_ok());
    match sm.current_state() {
        ConnectionState::Connected { session_id, connected_at } => {
            assert_eq!(session_id, "abc");
            assert_eq!(*connected_at, 42);
        }
        other => panic!("unexpected {:?}", other),
    }
    assert_eq!(sm.connection_duration_at(40), Some(0));
}

#[test]
fn error_from_idle_carries_attempt_zero() {
    let mut sm = StateMachine::new(3, 10);
    sm.transition_to_error_at("boom".to_string(), u64::MAX - 1);
    match sm.current_state() {
        ConnectionState::Error { retry_at, attempt, .. } => {
            assert_eq!(*attempt, 0);
            assert_eq!(*retry_at, u64::MAX);
        }
        other => panic!("unexpected {:?}", other),
    }
    assert_eq!(sm.connection_duration_at(1), None);
}

#[test]
fn inbound_messages_drive_the_state() {
    let mut sm = StateMachine::new(3, 100);
    sm.transition_to_connecting().unwrap();
    let started = ServerMessage::SessionStarted { session_id: "s-9".to_string(), config: serde_json::Value::Null };
    assert!(!apply_server_message(&mut sm, &started, 7));
    assert!(sm.current_state().is_connected());

    let partial = ServerMessage::PartialTranscript { text: "hi".to_string(), created_at_ms: None };
    assert!(!apply_server_message(&mut sm, &partial, 8));
    assert!(sm.current_state().is_connected());

    let throttled = ServerMessage::CommitThrottled { error: "slow".to_string() };
    assert!(!apply_server_message(&mut sm, &throttled, 9));
    assert!(sm.current_state().is_connected());

    let input_error = ServerMessage::InputError { error_message: "bad".to_string() };
    assert!(!apply_server_message(&mut sm, &input_error, 10));
    match sm.current_state() {
        ConnectionState::Error { message, retry_at, .. } => {
            assert_eq!(message, "bad");
            assert_eq!(*retry_at, 110);
        }
        other => panic!("unexpected {:?}", other),
    }

    let auth = ServerMessage::AuthError { error: "denied".to_string() };
    assert!(apply_server_message(&mut sm, &auth, 20));
    assert_eq!(sm.current_state().name(), "error");

    let ended = ServerMessage::SessionEnded { reason: "bye".to_string() };
    assert!(apply_server_message(&mut sm, &ended, 30));
    assert_eq!(sm.current_state().name(), "idle");
}

#[test]
fn exhausted_retries_are_reported() {
    let mut sm = StateMachine::new(1, 0);
    assert!(!sm.retries_exhausted());
    sm.transition_to_connecting().unwrap();
    sm.transition_to_error_at("down".to_string(), 0);
    assert!(sm.retries_exhausted());
    assert!(!sm.should_retry_at(100));
    assert!(matches!(sm.transition_to_connecting(), Err(StateError::MaxRetriesReached(1))));
}
