use vstd::prelude::*;

use crate::dispatch::envelope;
use crate::protocol::{
    Commands, Message, MessageModel, MessageType, Payload, PayloadModel, RequestModel,
    RequestPayload, RequestRecsPlainText, RequestRecsSimple, RequestRecsWrite, VERSION,
};

verus! {

/// The envelope that carries a request, stamped with this library's version.
pub open spec fn request_model(r: RequestModel) -> MessageModel<PayloadModel> {
    envelope(VERSION@, MessageType::Request, PayloadModel::Request(r), None)
}

/// Wraps a request in an envelope.
pub fn request_message(request: RequestPayload) -> (m: Message<Payload>)
    ensures
        m@ == request_model(request@),
        m.well_formed(),
{
    Message {
        version: String::from_str(VERSION),
        msg_type: MessageType::Request,
        payload: Payload::Request(request),
        error: None,
    }
}

/// A request to store the file at `path` under (`owner`, `name`).
pub fn write_request(path: String, owner: String, name: String, uid: u32) -> (m: Message<Payload>)
    ensures
        m@ == request_model(
            RequestModel::Write(crate::protocol::WriteModel { path: path@, owner: owner@, name: name@, uid }),
        ),
{
    request_message(RequestPayload::Write(RequestRecsWrite { path, owner, name, uid }))
}

/// A request to encrypt or decrypt the text `data`.
pub fn plain_text_request(command: Commands, data: String, uid: u32) -> (m: Message<Payload>)
    ensures
        m@ == request_model(
            RequestModel::PlainText(crate::protocol::PlainTextModel { command, data: data@, uid }),
        ),
{
    request_message(RequestPayload::PlainText(RequestRecsPlainText { command, data, uid }))
}

/// A request about the stored entry (`owner`, `name`).
pub fn simple_request(command: Commands, owner: String, name: String, uid: u32) -> (m: Message<
    Payload,
>)
    ensures
        m@ == request_model(
            RequestModel::Simple(crate::protocol::SimpleModel { command, owner: owner@, name: name@, uid }),
        ),
{
    request_message(RequestPayload::Simple(RequestRecsSimple { command, owner, name, uid }))
}

/// How an exchange ended for the caller.
#[derive(Clone, Copy, Debug, PartialEq, Eq, Structural)]
pub enum Verdict {
    /// The daemon answered with a response.
    Succeeded,
    /// The daemon answered with an error response.
    Failed,
    /// The daemon answered with a message of an unexpected type.
    Unexpected,
}

/// Where the client stands in the response/acknowledge handshake.
#[derive(Clone, Copy, Debug, PartialEq, Eq, Structural)]
pub enum Handshake {
    /// The request is sent; its answer is awaited.
    AwaitResponse,
    /// The answer came and was acknowledged; the daemon's acknowledgement is awaited.
    AwaitAck(Verdict),
    /// The exchange is over and the connection can be closed.
    Done(Verdict),
}

/// What the client does on a message: move to `next`, send an acknowledgement if
/// `send_ack`, and note a warning if `warn`.
#[derive(Clone, Copy, Debug, PartialEq, Eq, Structural)]
pub struct HandshakeStep {
    pub next: Handshake,
    pub send_ack: bool,
    pub warn: bool,
}

pub open spec fn handshake_step(h: Handshake, t: MessageType) -> HandshakeStep {
    match h {
        Handshake::AwaitResponse => match t {
            MessageType::Response => HandshakeStep {
                next: Handshake::AwaitAck(Verdict::Succeeded),
                send_ack: true,
                warn: false,
            },
            MessageType::ErrorResponse => HandshakeStep {
                next: Handshake::AwaitAck(Verdict::Failed),
                send_ack: true,
                warn: false,
            },
            _ => HandshakeStep {
                next: Handshake::Done(Verdict::Unexpected),
                send_ack: false,
                warn: true,
            },
        },
        Handshake::AwaitAck(v) => HandshakeStep {
            next: Handshake::Done(v),
            send_ack: false,
            warn: t != MessageType::Acknowledge,
        },
        Handshake::Done(v) => HandshakeStep { next: Handshake::Done(v), send_ack: false, warn: true },
    }
}

impl Handshake {
    /// The step taken on a message of type `t`.
    pub fn on_message(self, t: MessageType) -> (r: HandshakeStep)
        ensures
            r == handshake_step(self, t),
    {
        match self {
            Handshake::AwaitResponse => match t {
                MessageType::Response => HandshakeStep {
                    next: Handshake::AwaitAck(Verdict::Succeeded),
                    send_ack: true,
                    warn: false,
                },
                MessageType::ErrorResponse => HandshakeStep {
                    next: Handshake::AwaitAck(Verdict::Failed),
                    send_ack: true,
                    warn: false,
                },
                _ => HandshakeStep {
                    next: Handshake::Done(Verdict::Unexpected),
                    send_ack: false,
                    warn: true,
                },
            },
            Handshake::AwaitAck(v) => HandshakeStep {
                next: Handshake::Done(v),
                send_ack: false,
                warn: !matches!(t, MessageType::Acknowledge),
            },
            Handshake::Done(v) => HandshakeStep {
                next: Handshake::Done(v),
                send_ack: false,
                warn: true,
            },
        }
    }

    /// Whether the exchange is over.
    pub fn is_done(self) -> (r: bool)
        ensures
            r == (self is Done),
    {
        matches!(self, Handshake::Done(_))
    }
}

/// Whatever the daemon answers, the client is done after at most two messages; it
/// acknowledges exactly a response or an error response, and an error response ends the
/// exchange as a failure.
pub proof fn lemma_handshake_ends(first: MessageType, second: MessageType)
    ensures
        handshake_step(handshake_step(Handshake::AwaitResponse, first).next, second).next is Done,
        handshake_step(Handshake::AwaitResponse, first).send_ack <==> (first
            == MessageType::Response || first == MessageType::ErrorResponse),
        first == MessageType::ErrorResponse ==> handshake_step(
            handshake_step(Handshake::AwaitResponse, first).next,
            second,
        ).next == Handshake::Done(Verdict::Failed),
        first == MessageType::Response ==> handshake_step(
            handshake_step(Handshake::AwaitResponse, first).next,
            second,
        ).next == Handshake::Done(Verdict::Succeeded),
{
}

} // verus!
