use dusa::client::{plain_text_request, simple_request, write_request};
use dusa::dispatch::{
    acknowledgement, decrypt_raw_request, internal_error, raw_token_text, ReapTask, Session,
    StoreCall, StoreOutcome,
};
use dusa::protocol::{
    Commands, DecryptResponseData, DusaError, ErrorCode, Message, MessageType, Payload, TTL,
    VERSION,
};

fn field(key: &str, value: &str) -> Payload {
    Payload::Field { key: key.to_string(), value: value.to_string() }
}

fn ack() -> Message<Payload> {
    Message {
        version: VERSION.to_string(),
        msg_type: MessageType::Acknowledge,
        payload: Payload::Empty,
        error: None,
    }
}

fn with_version(mut m: Message<Payload>, version: &str) -> Message<Payload> {
    m.version = version.to_string();
    m
}

#[test]
fn write_then_stored() {
    let mut s = Session::new();
    let step = s.receive(&write_request("/tmp/a.txt".into(), "alice".into(), "a".into(), 1000));
    assert!(step.replies.is_empty());
    assert!(!step.close);
    assert_eq!(
        step.call,
        Some(StoreCall::Store { path: "/tmp/a.txt".into(), owner: "alice".into(), name: "a".into() })
    );
    let done = s.store_answered(&StoreOutcome::Stored);
    assert_eq!(
        done.replies,
        vec![
            Message {
                version: VERSION.to_string(),
                msg_type: MessageType::Response,
                payload: field("Ok", "file /tmp/a.txt written"),
                error: None,
            },
            ack(),
        ]
    );
    assert!(done.close);
    assert!(done.reap.is_none());
    assert!(s.is_closed());
}

#[test]
fn write_failure_is_generic() {
    let mut s = Session::new();
    s.receive(&write_request("/tmp/a.txt".into(), "alice".into(), "a".into(), 1000));
    let done = s.store_answered(&StoreOutcome::Failed);
    let text = "Error occurred while inserting";
    assert_eq!(
        done.replies,
        vec![
            Message {
                version: VERSION.to_string(),
                msg_type: MessageType::ErrorResponse,
                payload: field("Error", text),
                error: Some(DusaError { code: ErrorCode::InternalError, message: text.to_string() }),
            },
            ack(),
        ]
    );
}

#[test]
fn encrypt_then_decrypt_text() {
    let mut s = Session::new();
    let step =
        s.receive(&plain_text_request(Commands::EncryptRawText, "hello world".into(), 1000));
    assert_eq!(step.call, Some(StoreCall::EncryptRaw { data: "hello world".into() }));
    let done = s.store_answered(&StoreOutcome::Encrypted {
        key: "6b6579".into(),
        ciphertext: "c0ffee".into(),
        chunks: 2,
    });
    let token = "c0ffee-6b6579-2";
    assert_eq!(done.replies[0].payload, field("value", token));
    assert_eq!(done.replies[0].msg_type, MessageType::Response);
    assert_eq!(done.replies[1], ack());

    let mut t = Session::new();
    let step = t.receive(&plain_text_request(Commands::DecryptRawText, token.into(), 1000));
    assert_eq!(
        step.call,
        Some(StoreCall::DecryptRaw { ciphertext: "c0ffee".into(), key: "6b6579".into(), chunks: 2 })
    );
    let done = t.store_answered(&StoreOutcome::Decrypted { plaintext: "hello world".into() });
    assert_eq!(done.replies[0].payload, field("value", "hello world"));
    assert_eq!(done.replies[1], ack());
}

#[test]
fn raw_token_pieces() {
    assert_eq!(raw_token_text("abc", "def", 3), "abc-def-3");
    assert_eq!(raw_token_text("", "", 0), "--0");
    assert_eq!(
        decrypt_raw_request("abc-def-3"),
        StoreCall::DecryptRaw { ciphertext: "abc".into(), key: "def".into(), chunks: 3 }
    );
    assert_eq!(
        decrypt_raw_request("abc"),
        StoreCall::DecryptRaw { ciphertext: "abc".into(), key: "".into(), chunks: 1 }
    );
    assert_eq!(
        decrypt_raw_request("a-b-x"),
        StoreCall::DecryptRaw { ciphertext: "a".into(), key: "b".into(), chunks: 1 }
    );
    assert_eq!(
        decrypt_raw_request("a-b-7-extra"),
        StoreCall::DecryptRaw { ciphertext: "a".into(), key: "b".into(), chunks: 7 }
    );
}

#[test]
fn decrypt_file_is_reaped() {
    let mut s = Session::new();
    let step =
        s.receive(&simple_request(Commands::DecryptFile, "alice".into(), "a".into(), 1000));
    assert_eq!(
        step.call,
        Some(StoreCall::Retrieve { owner: "alice".into(), name: "a".into(), uid: 1000 })
    );
    let done = s.store_answered(&StoreOutcome::Retrieved {
        temp_path: "/tmp/dusa/x1".into(),
        original_path: "/home/alice/a.txt".into(),
    });
    assert_eq!(
        done.replies[0].payload,
        Payload::Decrypt(DecryptResponseData {
            temp_p: "/tmp/dusa/x1".into(),
            orig_p: "/home/alice/a.txt".into(),
            ttl: 5,
        })
    );
    assert_eq!(TTL, 5);
    assert_eq!(done.reap, Some(ReapTask { path: "/tmp/dusa/x1".into(), ttl: TTL }));
    assert_eq!(done.replies[1], ack());
}

#[test]
fn remove_missing_entry_fails_cleanly() {
    let mut s = Session::new();
    let request = with_version(
        simple_request(Commands::RemoveFile, "nobody".into(), "ghost".into(), 1000),
        "0.1.3",
    );
    let step = s.receive(&request);
    assert!(step.replies.is_empty());
    assert_eq!(step.call, Some(StoreCall::Remove { owner: "nobody".into(), name: "ghost".into() }));
    let done = s.store_answered(&StoreOutcome::Failed);
    assert_eq!(done.replies[0].msg_type, MessageType::ErrorResponse);
    assert_eq!(done.replies[0].error.as_ref().unwrap().code, ErrorCode::InternalError);
    assert_eq!(done.replies[1], ack());
    assert!(done.reap.is_none());

    let mut t = Session::new();
    t.receive(&simple_request(Commands::DecryptFile, "nobody".into(), "ghost".into(), 1000));
    let done = t.store_answered(&StoreOutcome::Failed);
    assert_eq!(done.replies[0].msg_type, MessageType::ErrorResponse);
    assert_eq!(
        done.replies[0].error,
        Some(DusaError {
            code: ErrorCode::InternalError,
            message: "Error occurred while decrypting the data".into(),
        })
    );
    assert!(done.reap.is_none());
}

#[test]
fn remove_answers_in_client_version() {
    let mut s = Session::new();
    let request = with_version(
        simple_request(Commands::RemoveFile, "alice".into(), "a".into(), 1000),
        "0.1.3",
    );
    s.receive(&request);
    let done = s.store_answered(&StoreOutcome::Removed);
    assert_eq!(done.replies[0].version, "0.1.3");
    assert_eq!(done.replies[0].payload, field("value", "Ok"));
}

#[test]
fn ping_needs_no_store() {
    let mut s = Session::new();
    let step = s.receive(&simple_request(Commands::PingFile, "a".into(), "b".into(), 1));
    assert!(step.call.is_none());
    assert!(step.close);
    assert_eq!(step.replies[0].payload, field("value", "Not implemented"));
    assert_eq!(step.replies[1], ack());
    assert!(s.is_closed());
}

#[test]
fn mismatched_version_is_reported_then_handled() {
    let mut s = Session::new();
    let request = with_version(
        simple_request(Commands::PingFile, "a".into(), "b".into(), 1),
        "1.0.0",
    );
    let step = s.receive(&request);
    assert_eq!(step.replies.len(), 3);
    assert_eq!(step.replies[0].msg_type, MessageType::ErrorResponse);
    assert_eq!(
        step.replies[0].error,
        Some(DusaError {
            code: ErrorCode::InvalidVersion,
            message: format!(
                "Client and Server out of date. Server version: {}, Client version: 1.0.0",
                VERSION
            ),
        })
    );
    assert_eq!(step.replies[1].payload, field("value", "Not implemented"));
    assert_eq!(step.replies[2], ack());
}

#[test]
fn differing_patch_is_accepted() {
    let mut s = Session::new();
    let request = with_version(
        simple_request(Commands::PingFile, "a".into(), "b".into(), 1),
        "0.1.42",
    );
    let step = s.receive(&request);
    assert_eq!(step.replies.len(), 2);
    assert_eq!(step.replies[0].msg_type, MessageType::Response);
}

#[test]
fn simple_message_is_acknowledged() {
    let mut s = Session::new();
    let msg = Message {
        version: "0.1.8".to_string(),
        msg_type: MessageType::Simple,
        payload: Payload::Empty,
        error: None,
    };
    let step = s.receive(&msg);
    assert_eq!(step.replies, vec![acknowledgement("0.1.8")]);
    assert!(step.close);
}

#[test]
fn unknown_type_is_an_error() {
    for t in [MessageType::Test, MessageType::Response, MessageType::Acknowledge, MessageType::ErrorResponse] {
        let mut s = Session::new();
        let msg = Message { version: VERSION.to_string(), msg_type: t, payload: Payload::Empty, error: None };
        let step = s.receive(&msg);
        assert_eq!(step.replies.len(), 1);
        assert_eq!(step.replies[0].error.as_ref().unwrap().code, ErrorCode::UnknownMessageType);
        assert!(step.call.is_none());
    }
}

#[test]
fn unreadable_request_is_an_error() {
    let mut s = Session::new();
    let msg = Message {
        version: VERSION.to_string(),
        msg_type: MessageType::Request,
        payload: Payload::Unreadable,
        error: None,
    };
    let step = s.receive(&msg);
    assert_eq!(step.replies.len(), 2);
    assert_eq!(step.replies[0].error.as_ref().unwrap().code, ErrorCode::InvalidPayload);
    assert_eq!(step.replies[1], ack());
    assert!(step.call.is_none());
}

#[test]
fn misplaced_command_is_an_error() {
    let mut s = Session::new();
    let step = s.receive(&plain_text_request(Commands::DecryptFile, "x".into(), 1));
    assert_eq!(
        step.replies[0].error,
        Some(DusaError { code: ErrorCode::InternalError, message: "Invalid command parsing".into() })
    );
    assert_eq!(step.replies[1], ack());
    let mut t = Session::new();
    let step = t.receive(&simple_request(Commands::EncryptRawText, "a".into(), "b".into(), 1));
    assert_eq!(step.replies[0].error.as_ref().unwrap().code, ErrorCode::InternalError);
}

#[test]
fn failed_receive_sends_nothing() {
    let mut s = Session::new();
    let step = s.receive_failed();
    assert!(step.replies.is_empty());
    assert!(step.close);
    assert!(s.is_closed());
}

#[test]
fn internal_error_message() {
    let m = internal_error("store offline");
    assert_eq!(m.msg_type, MessageType::ErrorResponse);
    assert_eq!(m.payload, field("error", "Internal Server Error"));
    assert_eq!(
        m.error,
        Some(DusaError { code: ErrorCode::InternalError, message: "store offline".into() })
    );
}

#[test]
fn sessions_keep_their_own_keys() {
    let mut a = Session::new();
    let mut b = Session::new();
    a.receive(&simple_request(Commands::DecryptFile, "alice".into(), "one".into(), 1));
    b.receive(&simple_request(Commands::DecryptFile, "bob".into(), "two".into(), 2));
    let da = a.store_answered(&StoreOutcome::Retrieved {
        temp_path: "/tmp/t-a".into(),
        original_path: "/o/a".into(),
    });
    let db = b.store_answered(&StoreOutcome::Retrieved {
        temp_path: "/tmp/t-b".into(),
        original_path: "/o/b".into(),
    });
    assert_eq!(da.reap.unwrap().path, "/tmp/t-a");
    assert_eq!(db.reap.unwrap().path, "/tmp/t-b");
}
