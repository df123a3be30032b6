use dusa::client::{write_request, Handshake, HandshakeStep, Verdict};
use dusa::dispatch::ReapTask;
use dusa::protocol::{MessageType, Payload, RequestPayload, RequestRecsWrite, VERSION};
use dusa::reap::{ReapAction, ReapStage, Reaper};

#[test]
fn request_envelope() {
    let m = write_request("/p".into(), "o".into(), "n".into(), 7);
    assert_eq!(m.version, VERSION);
    assert_eq!(m.msg_type, MessageType::Request);
    assert!(m.error.is_none());
    assert_eq!(
        m.payload,
        Payload::Request(RequestPayload::Write(RequestRecsWrite {
            path: "/p".into(),
            owner: "o".into(),
            name: "n".into(),
            uid: 7,
        }))
    );
}

#[test]
fn handshake_after_response() {
    let step = Handshake::AwaitResponse.on_message(MessageType::Response);
    assert_eq!(
        step,
        HandshakeStep { next: Handshake::AwaitAck(Verdict::Succeeded), send_ack: true, warn: false }
    );
    let last = step.next.on_message(MessageType::Acknowledge);
    assert_eq!(last, HandshakeStep { next: Handshake::Done(Verdict::Succeeded), send_ack: false, warn: false });
    assert!(last.next.is_done());
}

#[test]
fn handshake_after_error() {
    let step = Handshake::AwaitResponse.on_message(MessageType::ErrorResponse);
    assert!(step.send_ack);
    let last = step.next.on_message(MessageType::Acknowledge);
    assert_eq!(last.next, Handshake::Done(Verdict::Failed));
}

#[test]
fn handshake_unexpected_is_a_warning() {
    let step = Handshake::AwaitResponse.on_message(MessageType::Simple);
    assert_eq!(step, HandshakeStep { next: Handshake::Done(Verdict::Unexpected), send_ack: false, warn: true });
    let late = Handshake::AwaitAck(Verdict::Succeeded).on_message(MessageType::Response);
    assert_eq!(late, HandshakeStep { next: Handshake::Done(Verdict::Succeeded), send_ack: false, warn: true });
    assert!(!Handshake::AwaitResponse.is_done());
}

#[test]
fn reaper_reclaims_then_deletes() {
    let (mut r, first) = Reaper::start(ReapTask { path: "/tmp/t".into(), ttl: 5 });
    assert_eq!(first, ReapAction::Sleep(5));
    assert_eq!(r.path(), "/tmp/t");
    assert_eq!(r.advance(true), ReapAction::TakeOwnership);
    assert_eq!(r.advance(true), ReapAction::Delete);
    assert_eq!(r.advance(true), ReapAction::Stop { reported: false });
    assert_eq!(r.stage, ReapStage::Finished);
}

#[test]
fn reaper_stops_when_ownership_fails() {
    let (mut r, _) = Reaper::start(ReapTask { path: "/tmp/t".into(), ttl: 5 });
    r.advance(true);
    assert_eq!(r.advance(false), ReapAction::Stop { reported: true });
    assert_eq!(r.advance(true), ReapAction::Stop { reported: false });
}

#[test]
fn reaper_reports_failed_delete() {
    let (mut r, _) = Reaper::start(ReapTask { path: "/tmp/t".into(), ttl: 5 });
    r.advance(true);
    r.advance(true);
    assert_eq!(r.advance(false), ReapAction::Stop { reported: true });
}
