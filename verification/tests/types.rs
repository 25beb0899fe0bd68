use livekit_bridge::text::{decimal, has_nul};
use livekit_bridge::types::{
    err, ok, LkConnectionState, LkLogLevel, LkReliability, LkResult, LkRole,
    LK_ERR_ALREADY_CONNECTED, LK_ERR_CONNECT, LK_ERR_DATA, LK_ERR_HANDLE, LK_ERR_LOSSY_SIZE,
    LK_ERR_PARAMS, LK_ERR_PIPELINE, LK_ERR_PUSH, LK_ERR_RELIABLE_SIZE, LK_ERR_SEND,
    LK_ERR_STATE, LK_ERR_TEXT, LK_ERR_UNSUPPORTED, LK_OK,
};

#[test]
fn ok_has_code_zero_and_no_message() {
    assert_eq!(ok(), LkResult { code: 0, message: None });
}

#[test]
fn err_carries_code_and_message() {
    assert_eq!(err(6, "not connected"), LkResult { code: 6, message: Some("not connected".to_string()) });
    assert_eq!(err(-1, ""), LkResult { code: -1, message: Some(String::new()) });
}

#[test]
fn err_replaces_message_with_nul() {
    assert_eq!(err(2, "bad\0text"), LkResult { code: 2, message: Some("ffi error".to_string()) });
}

#[test]
fn error_codes() {
    assert_eq!(LK_OK, 0);
    assert_eq!(LK_ERR_HANDLE, 1);
    assert_eq!(LK_ERR_TEXT, 2);
    assert_eq!(LK_ERR_CONNECT, 3);
    assert_eq!(LK_ERR_DATA, 4);
    assert_eq!(LK_ERR_PARAMS, 5);
    assert_eq!(LK_ERR_STATE, 6);
    assert_eq!(LK_ERR_PIPELINE, 7);
    assert_eq!(LK_ERR_PUSH, 8);
    assert_eq!(LK_ERR_ALREADY_CONNECTED, 104);
    assert_eq!(LK_ERR_LOSSY_SIZE, 201);
    assert_eq!(LK_ERR_RELIABLE_SIZE, 202);
    assert_eq!(LK_ERR_SEND, 203);
    assert_eq!(LK_ERR_UNSUPPORTED, 501);
}

#[test]
fn reliability_codes_round_trip() {
    assert_eq!(LkReliability::Reliable.code(), 0);
    assert_eq!(LkReliability::Lossy.code(), 1);
    assert_eq!(LkReliability::from_code(0), Some(LkReliability::Reliable));
    assert_eq!(LkReliability::from_code(1), Some(LkReliability::Lossy));
    assert_eq!(LkReliability::from_code(2), None);
    assert_eq!(LkReliability::from_code(-1), None);
}

#[test]
fn role_codes_round_trip() {
    assert_eq!(LkRole::Auto.code(), 0);
    assert_eq!(LkRole::Publisher.code(), 1);
    assert_eq!(LkRole::Subscriber.code(), 2);
    assert_eq!(LkRole::Both.code(), 3);
    for code in 0..4 {
        assert_eq!(LkRole::from_code(code).unwrap().code(), code);
    }
    assert_eq!(LkRole::from_code(4), None);
}

#[test]
fn only_publisher_does_not_subscribe() {
    assert!(LkRole::Auto.auto_subscribe());
    assert!(!LkRole::Publisher.auto_subscribe());
    assert!(LkRole::Subscriber.auto_subscribe());
    assert!(LkRole::Both.auto_subscribe());
}

#[test]
fn connection_state_codes() {
    assert_eq!(LkConnectionState::Connecting.code(), 0);
    assert_eq!(LkConnectionState::Connected.code(), 1);
    assert_eq!(LkConnectionState::Reconnecting.code(), 2);
    assert_eq!(LkConnectionState::Disconnected.code(), 3);
    assert_eq!(LkConnectionState::Failed.code(), 4);
}

#[test]
fn log_level_codes_and_order() {
    assert_eq!(LkLogLevel::Error.code(), 0);
    assert_eq!(LkLogLevel::Trace.code(), 4);
    for code in 0..5 {
        assert_eq!(LkLogLevel::from_code(code).unwrap().code(), code);
    }
    assert_eq!(LkLogLevel::from_code(5), None);
    assert!(LkLogLevel::Debug.emits(LkLogLevel::Warn));
    assert!(LkLogLevel::Debug.emits(LkLogLevel::Debug));
    assert!(!LkLogLevel::Debug.emits(LkLogLevel::Trace));
    assert!(!LkLogLevel::Error.emits(LkLogLevel::Warn));
}

#[test]
fn decimal_renders_numbers() {
    assert_eq!(decimal(0), "0");
    assert_eq!(decimal(7), "7");
    assert_eq!(decimal(10), "10");
    assert_eq!(decimal(15_360), "15360");
    assert_eq!(decimal(u64::MAX), "18446744073709551615");
}

#[test]
fn has_nul_finds_nul_anywhere() {
    assert!(!has_nul(""));
    assert!(!has_nul("plain text"));
    assert!(has_nul("\0"));
    assert!(has_nul("end\0"));
    assert!(has_nul("\u{e9}\0x"));
}
