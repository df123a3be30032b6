use dusa::codec::{decode_frame, encode_frame, frame_length, length_prefix, FrameError};
use dusa::errors::ServerError;
use dusa::numeric::{decimal_string, parse_bounded};
use dusa::protocol::{Commands, ErrorCode, MessageType};
use dusa::text::split;
use dusa::version::{check_version, parse_version, same_protocol};

#[test]
fn command_names() {
    assert_eq!(Commands::EncryptRawText.display(), "et");
    assert_eq!(Commands::DecryptRawText.display(), "dt");
    assert_eq!(Commands::DecryptFile.display(), "df");
    assert_eq!(Commands::RemoveFile.display(), "rf");
    assert_eq!(Commands::PingFile.display(), "pf");
}

#[test]
fn message_type_labels() {
    assert_eq!(MessageType::Request.display(), "Request");
    assert_eq!(MessageType::Response.display(), "Response");
    assert_eq!(MessageType::ErrorResponse.display(), "Error");
    assert_eq!(MessageType::Simple.display(), "Simple Message");
    assert_eq!(MessageType::Acknowledge.display(), "Understood");
    assert_eq!(MessageType::Test.display(), "Test message");
}

#[test]
fn error_code_sentences() {
    assert_eq!(ErrorCode::UnknownMessageType.display(), "Unknown message type");
    assert_eq!(ErrorCode::InvalidPayload.display(), "Invalid payload");
    assert_eq!(ErrorCode::InternalError.display(), "Internal error");
    assert_eq!(ErrorCode::InvalidVersion.display(), "We aren't speaking the same language");
    assert_eq!(ErrorCode::InvalidPermissions.display(), "You have no authority here");
}

#[test]
fn split_keeps_empty_pieces() {
    assert_eq!(split("a-b-c", '-'), vec!["a", "b", "c"]);
    assert_eq!(split("", '-'), vec![""]);
    assert_eq!(split("a-", '-'), vec!["a", ""]);
    assert_eq!(split("-", '-'), vec!["", ""]);
    assert_eq!(split("abc", '-'), vec!["abc"]);
    assert_eq!(split("é.ü", '.'), vec!["é", "ü"]);
}

#[test]
fn parse_follows_std_syntax() {
    assert_eq!(parse_bounded("42", u32::MAX as u64), Some(42));
    assert_eq!(parse_bounded("+7", u32::MAX as u64), Some(7));
    assert_eq!(parse_bounded("007", u32::MAX as u64), Some(7));
    assert_eq!(parse_bounded("", u32::MAX as u64), None);
    assert_eq!(parse_bounded("+", u32::MAX as u64), None);
    assert_eq!(parse_bounded("-1", u32::MAX as u64), None);
    assert_eq!(parse_bounded("1x", u32::MAX as u64), None);
    assert_eq!(parse_bounded("4294967295", u32::MAX as u64), Some(4294967295));
    assert_eq!(parse_bounded("4294967296", u32::MAX as u64), None);
    assert_eq!(parse_bounded("18446744073709551615", u64::MAX), Some(u64::MAX));
    assert_eq!(parse_bounded("18446744073709551616", u64::MAX), None);
    for s in ["0", "12", "+3", "99999999999", "4294967296", "", "a", "1 "] {
        assert_eq!(parse_bounded(s, u32::MAX as u64), s.parse::<u32>().ok().map(|v| v as u64));
    }
}

#[test]
fn decimal_text() {
    assert_eq!(decimal_string(0), "0");
    assert_eq!(decimal_string(7), "7");
    assert_eq!(decimal_string(1234), "1234");
    assert_eq!(decimal_string(u64::MAX), "18446744073709551615");
    assert_eq!(parse_bounded(&decimal_string(90210), u64::MAX), Some(90210));
}

#[test]
fn version_numbers_and_patch() {
    assert_eq!(parse_version("0.1.0"), Some((0, 1)));
    assert_eq!(parse_version("3.14.159"), Some((3, 14)));
    assert_eq!(parse_version("0.1"), None);
    assert_eq!(parse_version("0.1.0.0"), None);
    assert_eq!(parse_version("a.b.c"), None);
    assert_eq!(parse_version("0.1.x"), None);
    assert_eq!(parse_version("0.1.4294967296"), None);
    assert!(check_version("0.1.0"));
    assert!(check_version("0.1.9"));
    assert!(check_version("0.1.+2"));
    assert!(!check_version("0.2.0"));
    assert!(!check_version("1.1.0"));
    assert!(!check_version("0.1"));
    assert!(!check_version(""));
    assert!(same_protocol("2.5.1", "2.5.7"));
    assert!(!same_protocol("2.5.1", "2.6.1"));
    assert!(!same_protocol("x.5.1", "x.5.1"));
}

#[test]
fn frame_layout() {
    assert_eq!(length_prefix(0x01020304), [1, 2, 3, 4]);
    assert_eq!(frame_length([0, 0, 1, 0]), 256);
    assert_eq!(frame_length([0xff, 0, 0, 1]), 0xff000001);
    let framed = encode_frame(&[7, 8, 9]).unwrap();
    assert_eq!(framed, vec![0, 0, 0, 3, 7, 8, 9]);
    assert_eq!(encode_frame(&[]).unwrap(), vec![0, 0, 0, 0]);
}

#[test]
fn frame_round_trip() {
    let payload: Vec<u8> = b"{\"version\":\"0.1.0\"}".to_vec();
    let mut bytes = encode_frame(&payload).unwrap();
    bytes.extend_from_slice(&[1, 2]);
    let (decoded, used) = decode_frame(&bytes).unwrap();
    assert_eq!(decoded, payload);
    assert_eq!(used, payload.len() + 4);
    let big = vec![0x5a; 300];
    let (decoded, used) = decode_frame(&encode_frame(&big).unwrap()).unwrap();
    assert_eq!(decoded, big);
    assert_eq!(used, 304);
}

#[test]
fn frame_errors() {
    assert_eq!(decode_frame(&[0, 0, 1]), Err(FrameError::ShortHeader));
    assert_eq!(decode_frame(&[]), Err(FrameError::ShortHeader));
    assert_eq!(decode_frame(&[0, 0, 0, 5, 1, 2]), Err(FrameError::ShortPayload));
    assert_eq!(decode_frame(&[0, 0, 0, 0]), Ok((vec![], 4)));
}

#[test]
fn server_error_text() {
    let custom = ServerError::_CustomError(String::from("socket gone"));
    assert_eq!(custom.describe(), "Custom Error: socket gone");
    let parse = ServerError::from("x".parse::<u32>().unwrap_err());
    assert_eq!(parse.describe(), "Parse Error: invalid digit found in string");
    let io = ServerError::from(std::io::Error::new(std::io::ErrorKind::Other, "broken pipe"));
    assert_eq!(io.describe(), "IO Error: broken pipe");
}

#[test]
fn envelope_bytes_round_trip() {
    let mut payload = serde_json::Map::new();
    payload.insert("value".to_string(), serde_json::Value::String("hello world".to_string()));
    let mut envelope = serde_json::Map::new();
    envelope.insert("version".to_string(), serde_json::Value::String("0.1.0".to_string()));
    envelope.insert("msg_type".to_string(), serde_json::Value::String("Response".to_string()));
    envelope.insert("payload".to_string(), serde_json::Value::Object(payload));
    envelope.insert("error".to_string(), serde_json::Value::Null);
    let message = serde_json::Value::Object(envelope);
    let bytes = serde_json::to_vec(&message).unwrap();
    let framed = encode_frame(&bytes).unwrap();
    assert_eq!(frame_length([framed[0], framed[1], framed[2], framed[3]]) as usize, bytes.len());
    let (decoded, used) = decode_frame(&framed).unwrap();
    assert_eq!(used, framed.len());
    let back: serde_json::Value = serde_json::from_slice(&decoded).unwrap();
    assert_eq!(back, message);
}
