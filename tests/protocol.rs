use base64::Engine;
use raflow::protocol::{pcm_to_le_bytes, ClientMessage, InboundFields, ProtocolError, ServerMessage};

fn fields(json: &str) -> InboundFields {
    let v: serde_json::Value = serde_json::from_str(json).unwrap();
    let s = |k: &str| v.get(k).and_then(|x| x.as_str()).map(|x| x.to_string());
    InboundFields {
        message_type: s("message_type"),
        session_id: s("session_id"),
        config: v.get("config").cloned(),
        text: s("text"),
        created_at_ms: v.get("created_at_ms").and_then(|x| x.as_u64()),
        confidence: v.get("confidence").and_then(|x| x.as_number()).cloned(),
        error_message: s("error_message"),
        reason: s("reason"),
        error: s("error"),
    }
}

fn parse(json: &str) -> Result<ServerMessage, ProtocolError> {
    ServerMessage::from_fields(fields(json))
}

fn payload(m: &ClientMessage) -> (String, Option<bool>) {
    match m {
        ClientMessage::AudioChunk { audio_base_64, commit } => (audio_base_64.clone(), *commit),
    }
}

#[test]
fn test_audio_chunk_creation() {
    let pcm_data = vec![0i16, 100, -100, 200, -200];
    let message = ClientMessage::audio_chunk(&pcm_data);
    let (audio_base_64, _) = payload(&message);
    let decoded = base64::engine::general_purpose::STANDARD.decode(&audio_base_64).unwrap();
    assert_eq!(decoded.len(), pcm_data.len() * 2);
}

#[test]
fn test_client_message_serialization() {
    let pcm_data = vec![100i16, -100, 200];
    let message = ClientMessage::audio_chunk(&pcm_data);
    let json = message.to_json().unwrap();

    assert!(json.contains("input_audio_chunk"));
    assert!(json.contains("audio_base_64"));
}

#[test]
fn test_session_started_deserialization() {
    let json = r#"{
        "message_type": "session_started",
        "session_id": "test-session-123",
        "config": {}
    }"#;

    let message = parse(json).unwrap();
    match message {
        ServerMessage::SessionStarted { session_id, .. } => {
            assert_eq!(session_id, "test-session-123");
        }
        _ => panic!("Expected SessionStarted"),
    }
}

#[test]
fn test_partial_transcript_deserialization() {
    let json = r#"{
        "message_type": "partial_transcript",
        "text": "hello world",
        "created_at_ms": 1234567890
    }"#;

    let message = parse(json).unwrap();
    assert!(message.is_transcript());
    assert_eq!(message.text(), Some("hello world"));

    match message {
        ServerMessage::PartialTranscript { text, created_at_ms } => {
            assert_eq!(text, "hello world");
            assert_eq!(created_at_ms, Some(1234567890));
        }
        _ => panic!("Expected PartialTranscript"),
    }
}

#[test]
fn test_committed_transcript_deserialization() {
    let json = r#"{
        "message_type": "committed_transcript",
        "text": "final text",
        "confidence": 0.98
    }"#;

    let message = parse(json).unwrap();
    assert!(message.is_transcript());
    assert_eq!(message.text(), Some("final text"));

    match message {
        ServerMessage::CommittedTranscript { text, confidence } => {
            assert_eq!(text, "final text");
            assert!((confidence.unwrap().as_f64().unwrap() - 0.98).abs() < 0.01);
        }
        _ => panic!("Expected CommittedTranscript"),
    }
}

#[test]
fn test_input_error_deserialization() {
    let json = r#"{
        "message_type": "input_error",
        "error_message": "Invalid audio format"
    }"#;

    let message = parse(json).unwrap();
    assert!(message.is_error());

    match message {
        ServerMessage::InputError { error_message } => {
            assert_eq!(error_message, "Invalid audio format");
        }
        _ => panic!("Expected InputError"),
    }
}

#[test]
fn test_session_ended_deserialization() {
    let json = r#"{
        "message_type": "session_ended",
        "reason": "timeout"
    }"#;

    let message = parse(json).unwrap();
    match message {
        ServerMessage::SessionEnded { reason } => {
            assert_eq!(reason, "timeout");
        }
        _ => panic!("Expected SessionEnded"),
    }
}

#[test]
fn test_protocol_roundtrip() {
    let pcm_data = vec![100i16, -100, 200, -200];
    let client_msg = ClientMessage::audio_chunk(&pcm_data);

    let json = client_msg.to_json().unwrap();
    assert!(json.contains("input_audio_chunk"));
    assert!(json.contains("audio_base_64"));

    let server_json = r#"{
        "message_type": "partial_transcript",
        "text": "hello",
        "created_at_ms": 1234567890
    }"#;

    let server_msg = parse(server_json).unwrap();
    assert!(server_msg.is_transcript());
    assert_eq!(server_msg.text(), Some("hello"));
}

#[test]
fn test_message_parsing_edge_cases() {
    let json = r#"{
        "message_type": "partial_transcript",
        "text": "",
        "created_at_ms": 0
    }"#;
    let msg = parse(json).unwrap();
    assert_eq!(msg.text(), Some(""));

    let json = r#"{
        "message_type": "committed_transcript",
        "text": "Hello, 世界! 🎉",
        "confidence": 0.95
    }"#;
    let msg = parse(json).unwrap();
    assert_eq!(msg.text(), Some("Hello, 世界! 🎉"));

    let json = r#"{
        "message_type": "input_error",
        "error_message": "Invalid sample rate"
    }"#;
    let msg = parse(json).unwrap();
    assert!(msg.is_error());
}

#[test]
fn pcm_bytes_are_little_endian() {
    assert_eq!(
        pcm_to_le_bytes(&[100, -100, 200, -200]),
        vec![0x64, 0x00, 0x9c, 0xff, 0xc8, 0x00, 0x38, 0xff]
    );
    assert_eq!(pcm_to_le_bytes(&[i16::MIN, i16::MAX, 0]), vec![0x00, 0x80, 0xff, 0x7f, 0, 0]);
    assert!(pcm_to_le_bytes(&[]).is_empty());
}

#[test]
fn audio_chunk_is_base64_of_le_bytes() {
    let message = ClientMessage::audio_chunk(&[100, -100, 200, -200]);
    let (audio, commit) = payload(&message);
    assert_eq!(audio, "ZACc/8gAOP8=");
    assert_eq!(commit, None);
    let json = message.to_json().unwrap();
    assert_eq!(
        json,
        r#"{"message_type":"input_audio_chunk","audio_base_64":"ZACc/8gAOP8="}"#
    );
}

#[test]
fn commit_serializes_with_empty_payload() {
    let message = ClientMessage::commit();
    assert_eq!(payload(&message), (String::new(), Some(true)));
    assert_eq!(
        message.to_json().unwrap(),
        r#"{"message_type":"input_audio_chunk","audio_base_64":"","commit":true}"#
    );
    let json: serde_json::Value = serde_json::from_str(&message.to_json().unwrap()).unwrap();
    assert_eq!(json["commit"], serde_json::Value::Bool(true));
    assert_eq!(json["audio_base_64"], serde_json::Value::String(String::new()));
}

#[test]
fn commit_false_is_written() {
    let message = ClientMessage::AudioChunk { audio_base_64: "a\"b".to_string(), commit: Some(false) };
    assert_eq!(
        message.to_json().unwrap(),
        r#"{"message_type":"input_audio_chunk","audio_base_64":"a\"b","commit":false}"#
    );
}

#[test]
fn unknown_type_is_an_error() {
    match parse(r#"{"message_type": "mystery"}"#) {
        Err(ProtocolError::UnknownMessageType(t)) => assert_eq!(t, "mystery"),
        other => panic!("unexpected {:?}", other),
    }
}

#[test]
fn missing_members_are_errors() {
    match parse(r#"{"text": "x"}"#) {
        Err(ProtocolError::MissingField(n)) => assert_eq!(n, "message_type"),
        other => panic!("unexpected {:?}", other),
    }
    match parse(r#"{"message_type": "session_started"}"#) {
        Err(ProtocolError::MissingField(n)) => assert_eq!(n, "session_id"),
        other => panic!("unexpected {:?}", other),
    }
    match parse(r#"{"message_type": "auth_error"}"#) {
        Err(ProtocolError::MissingField(n)) => assert_eq!(n, "error"),
        other => panic!("unexpected {:?}", other),
    }
}

#[test]
fn session_ended_reason_defaults_to_empty() {
    match parse(r#"{"message_type": "session_ended"}"#).unwrap() {
        ServerMessage::SessionEnded { reason } => assert_eq!(reason, ""),
        _ => panic!("Expected SessionEnded"),
    }
}

#[test]
fn classification_helpers() {
    let auth = parse(r#"{"message_type": "auth_error", "error": "bad key"}"#).unwrap();
    assert!(auth.is_error());
    assert!(!auth.is_warning());
    assert_eq!(auth.text(), None);
    let throttled = parse(r#"{"message_type": "commit_throttled", "error": "too short"}"#).unwrap();
    assert!(throttled.is_warning());
    assert!(!throttled.is_error());
    assert!(!throttled.is_transcript());
}

#[test]
fn every_variant_round_trips_through_its_wire_form() {
    let messages = vec![
        ServerMessage::SessionStarted { session_id: "s-1".to_string(), config: serde_json::Value::Null },
        ServerMessage::PartialTranscript { text: "hi".to_string(), created_at_ms: Some(7) },
        ServerMessage::CommittedTranscript { text: "done".to_string(), confidence: None },
        ServerMessage::InputError { error_message: "bad".to_string() },
        ServerMessage::SessionEnded { reason: "timeout".to_string() },
        ServerMessage::AuthError { error: "denied".to_string() },
        ServerMessage::CommitThrottled { error: "slow".to_string() },
    ];
    for m in messages {
        let expected = format!("{:?}", m);
        let back = ServerMessage::from_fields(m.into_fields()).unwrap();
        assert_eq!(format!("{:?}", back), expected);
    }
}

#[test]
fn payload_is_escaped_as_a_json_string() {
    let message = ClientMessage::AudioChunk { audio_base_64: "a\\b\n\u{1}\u{7f}é".to_string(), commit: None };
    assert_eq!(
        message.to_json().unwrap(),
        "{\"message_type\":\"input_audio_chunk\",\"audio_base_64\":\"a\\\\b\\n\\u0001\u{7f}é\"}"
    );
}
