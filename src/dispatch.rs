use vstd::prelude::*;

use crate::numeric::{
    bounded_value, decimal_digits, decimal_string, lemma_decimal_round_trip, lemma_digits_without,
    parse_bounded,
};
use crate::protocol::{
    Commands, DecryptModel, PlainTextModel, SimpleModel, WriteModel, DecryptResponseData, DusaError, DusaErrorModel, ErrorCode, Message,
    MessageModel, MessageType, Payload, PayloadModel, RequestModel, RequestPayload, TTL, VERSION,
};
use crate::text::{lemma_split_three, split, split_on};
use crate::version::{check_version, version_numbers, version_text, versions_compatible};

verus! {

/// A call into the encrypted store that the daemon makes for a request.
#[derive(Debug, PartialEq, Eq)]
pub enum StoreCall {
    /// Encrypt the file at `path` and keep it under (`owner`, `name`).
    Store { path: String, owner: String, name: String },
    /// Decrypt the entry (`owner`, `name`) into a temporary file.
    Retrieve { owner: String, name: String, uid: u32 },
    /// Forget the entry (`owner`, `name`).
    Remove { owner: String, name: String },
    /// Encrypt a text held in memory.
    EncryptRaw { data: String },
    /// Decrypt a text held in memory.
    DecryptRaw { ciphertext: String, key: String, chunks: usize },
}

pub enum StoreCallModel {
    Store { path: Seq<char>, owner: Seq<char>, name: Seq<char> },
    Retrieve { owner: Seq<char>, name: Seq<char>, uid: u32 },
    Remove { owner: Seq<char>, name: Seq<char> },
    EncryptRaw { data: Seq<char> },
    DecryptRaw { ciphertext: Seq<char>, key: Seq<char>, chunks: usize },
}

impl View for StoreCall {
    type V = StoreCallModel;

    open spec fn view(&self) -> StoreCallModel {
        match self {
            StoreCall::Store { path, owner, name } => StoreCallModel::Store {
                path: path@,
                owner: owner@,
                name: name@,
            },
            StoreCall::Retrieve { owner, name, uid } => StoreCallModel::Retrieve {
                owner: owner@,
                name: name@,
                uid: *uid,
            },
            StoreCall::Remove { owner, name } => StoreCallModel::Remove {
                owner: owner@,
                name: name@,
            },
            StoreCall::EncryptRaw { data } => StoreCallModel::EncryptRaw { data: data@ },
            StoreCall::DecryptRaw { ciphertext, key, chunks } => StoreCallModel::DecryptRaw {
                ciphertext: ciphertext@,
                key: key@,
                chunks: *chunks,
            },
        }
    }
}

/// What the store answered to a call.
#[derive(Debug, PartialEq, Eq)]
pub enum StoreOutcome {
    Stored,
    Retrieved { temp_path: String, original_path: String },
    Removed,
    Encrypted { key: String, ciphertext: String, chunks: usize },
    Decrypted { plaintext: String },
    /// The call failed; the reason stays with the daemon.
    Failed,
}

pub enum StoreOutcomeModel {
    Stored,
    Retrieved { temp_path: Seq<char>, original_path: Seq<char> },
    Removed,
    Encrypted { key: Seq<char>, ciphertext: Seq<char>, chunks: usize },
    Decrypted { plaintext: Seq<char> },
    Failed,
}

impl View for StoreOutcome {
    type V = StoreOutcomeModel;

    open spec fn view(&self) -> StoreOutcomeModel {
        match self {
            StoreOutcome::Stored => StoreOutcomeModel::Stored,
            StoreOutcome::Retrieved { temp_path, original_path } => StoreOutcomeModel::Retrieved {
                temp_path: temp_path@,
                original_path: original_path@,
            },
            StoreOutcome::Removed => StoreOutcomeModel::Removed,
            StoreOutcome::Encrypted { key, ciphertext, chunks } => StoreOutcomeModel::Encrypted {
                key: key@,
                ciphertext: ciphertext@,
                chunks: *chunks,
            },
            StoreOutcome::Decrypted { plaintext } => StoreOutcomeModel::Decrypted {
                plaintext: plaintext@,
            },
            StoreOutcome::Failed => StoreOutcomeModel::Failed,
        }
    }
}

/// A decrypted file to take back and delete once `ttl` seconds have passed.
#[derive(Debug, PartialEq, Eq)]
pub struct ReapTask {
    pub path: String,
    pub ttl: u64,
}

pub struct ReapModel {
    pub path: Seq<char>,
    pub ttl: u64,
}

impl View for ReapTask {
    type V = ReapModel;

    open spec fn view(&self) -> ReapModel {
        ReapModel { path: self.path@, ttl: self.ttl }
    }
}

/// What the connection's driver does next: send `replies` in order, then make `call` (and
/// hand its outcome back), start `reap`, and shut the connection down if `close`.
pub struct Step {
    pub replies: Vec<Message<Payload>>,
    pub call: Option<StoreCall>,
    pub reap: Option<ReapTask>,
    pub close: bool,
}

pub struct StepModel {
    pub replies: Seq<MessageModel<PayloadModel>>,
    pub call: Option<StoreCallModel>,
    pub reap: Option<ReapModel>,
    pub close: bool,
}

pub open spec fn message_views(s: Seq<Message<Payload>>) -> Seq<MessageModel<PayloadModel>> {
    s.map_values(|m: Message<Payload>| m@)
}

pub open spec fn call_view(c: Option<StoreCall>) -> Option<StoreCallModel> {
    match c {
        Some(x) => Some(x@),
        None => None,
    }
}

pub open spec fn reap_view(r: Option<ReapTask>) -> Option<ReapModel> {
    match r {
        Some(x) => Some(x@),
        None => None,
    }
}

impl View for Step {
    type V = StepModel;

    open spec fn view(&self) -> StepModel {
        StepModel {
            replies: message_views(self.replies@),
            call: call_view(self.call),
            reap: reap_view(self.reap),
            close: self.close,
        }
    }
}

// ---------------------------------------------------------------------------------------
// The messages the daemon sends.

pub open spec fn envelope(
    version: Seq<char>,
    msg_type: MessageType,
    payload: PayloadModel,
    error: Option<DusaErrorModel>,
) -> MessageModel<PayloadModel> {
    MessageModel { version, msg_type, payload, error }
}

pub open spec fn field(key: Seq<char>, value: Seq<char>) -> PayloadModel {
    PayloadModel::Field { key, value }
}

/// The acknowledgement that closes every exchange.
pub open spec fn ack_model(version: Seq<char>) -> MessageModel<PayloadModel> {
    envelope(version, MessageType::Acknowledge, PayloadModel::Empty, None)
}

/// An error response: the message under `key` in the payload and in the structured error.
pub open spec fn error_reply(
    code: ErrorCode,
    message: Seq<char>,
    payload: PayloadModel,
) -> MessageModel<PayloadModel> {
    envelope(
        VERSION@,
        MessageType::ErrorResponse,
        payload,
        Some(DusaErrorModel { code, message }),
    )
}

/// A response whose payload is `{key: value}`.
pub open spec fn field_reply(version: Seq<char>, key: Seq<char>, value: Seq<char>) -> MessageModel<
    PayloadModel,
> {
    envelope(version, MessageType::Response, field(key, value), None)
}

pub open spec fn version_error_text(incoming: Seq<char>) -> Seq<char> {
    "Client and Server out of date. Server version: "@ + VERSION@ + ", Client version: "@
        + incoming
}

/// The answer to a peer whose version does not match.
pub open spec fn version_error(incoming: Seq<char>) -> MessageModel<PayloadModel> {
    error_reply(ErrorCode::InvalidVersion, version_error_text(incoming), PayloadModel::Empty)
}

pub open spec fn unknown_type_error() -> MessageModel<PayloadModel> {
    error_reply(ErrorCode::UnknownMessageType, "Unknown message type"@, PayloadModel::Empty)
}

pub open spec fn invalid_payload_error() -> MessageModel<PayloadModel> {
    error_reply(ErrorCode::InvalidPayload, "Request payload could not be read"@, PayloadModel::Empty)
}

pub open spec fn invalid_command_error() -> MessageModel<PayloadModel> {
    error_reply(ErrorCode::InternalError, "Invalid command parsing"@, PayloadModel::Empty)
}

/// The generic message sent when the store fails a call; the store's own words stay local.
pub open spec fn failure_text(call: StoreCallModel) -> Seq<char> {
    match call {
        StoreCallModel::Store { .. } => "Error occurred while inserting"@,
        StoreCallModel::EncryptRaw { .. } => "Error occurred while encrypting the data"@,
        StoreCallModel::Remove { .. } => "Error occurred while removing the data"@,
        _ => "Error occurred while decrypting the data"@,
    }
}

pub open spec fn failure_reply(call: StoreCallModel) -> MessageModel<PayloadModel> {
    error_reply(ErrorCode::InternalError, failure_text(call), field("Error"@, failure_text(call)))
}

// ---------------------------------------------------------------------------------------
// The text form of an in-memory encryption: `<ciphertext>-<key>-<chunks>`.

pub open spec fn raw_token(ciphertext: Seq<char>, key: Seq<char>, chunks: nat) -> Seq<char> {
    ciphertext.push('-') + key.push('-') + decimal_digits(chunks)
}

/// The piece at `i`, or the empty text where there is none.
pub open spec fn piece_or_empty(parts: Seq<Seq<char>>, i: int) -> Seq<char> {
    if i < parts.len() {
        parts[i]
    } else {
        Seq::<char>::empty()
    }
}

/// The chunk count of a token: its third piece as a number, 1 where that is missing or not
/// a number that fits.
pub open spec fn token_chunks(parts: Seq<Seq<char>>) -> nat {
    if parts.len() > 2 && bounded_value(parts[2], usize::MAX as nat) is Some {
        bounded_value(parts[2], usize::MAX as nat)->0
    } else {
        1
    }
}

/// The store call that decrypting the token `data` makes.
pub open spec fn decrypt_raw_call(data: Seq<char>) -> StoreCallModel {
    let parts = split_on(data, '-');
    StoreCallModel::DecryptRaw {
        ciphertext: piece_or_empty(parts, 0),
        key: piece_or_empty(parts, 1),
        chunks: token_chunks(parts) as usize,
    }
}

// ---------------------------------------------------------------------------------------
// Decisions.

/// What a request leads to: a store call, or an answer given at once.
pub enum RequestAction {
    Call(StoreCallModel),
    Answer(MessageModel<PayloadModel>),
}

pub open spec fn request_action(r: RequestModel) -> RequestAction {
    match r {
        RequestModel::Write(w) => RequestAction::Call(
            StoreCallModel::Store { path: w.path, owner: w.owner, name: w.name },
        ),
        RequestModel::PlainText(p) => match p.command {
            Commands::EncryptRawText => RequestAction::Call(
                StoreCallModel::EncryptRaw { data: p.data },
            ),
            Commands::DecryptRawText => RequestAction::Call(decrypt_raw_call(p.data)),
            _ => RequestAction::Answer(invalid_command_error()),
        },
        RequestModel::Simple(s) => match s.command {
            Commands::DecryptFile => RequestAction::Call(
                StoreCallModel::Retrieve { owner: s.owner, name: s.name, uid: s.uid },
            ),
            Commands::RemoveFile => RequestAction::Call(
                StoreCallModel::Remove { owner: s.owner, name: s.name },
            ),
            Commands::PingFile => RequestAction::Answer(
                field_reply(VERSION@, "value"@, "Not implemented"@),
            ),
            _ => RequestAction::Answer(invalid_command_error()),
        },
    }
}

/// The replies that end an exchange without a store call.
pub open spec fn closing(replies: Seq<MessageModel<PayloadModel>>) -> StepModel {
    StepModel { replies, call: None, reap: None, close: true }
}

/// How an envelope is handled by its type, whatever its version. A request whose payload
/// could not be read as a request is refused with `InvalidPayload`, never taken for another
/// request.
pub open spec fn route_step(msg: MessageModel<PayloadModel>) -> StepModel {
    match msg.msg_type {
        MessageType::Request => match msg.payload {
            PayloadModel::Request(r) => match request_action(r) {
                RequestAction::Call(c) => StepModel {
                    replies: Seq::<MessageModel<PayloadModel>>::empty(),
                    call: Some(c),
                    reap: None,
                    close: false,
                },
                RequestAction::Answer(m) => closing(seq![m, ack_model(VERSION@)]),
            },
            _ => closing(seq![invalid_payload_error(), ack_model(VERSION@)]),
        },
        MessageType::Simple => closing(seq![ack_model(msg.version)]),
        _ => closing(seq![unknown_type_error()]),
    }
}

/// The step that a received envelope leads to. A version mismatch is answered with an
/// error first, and the envelope is handled all the same.
pub open spec fn receive_step(msg: MessageModel<PayloadModel>) -> StepModel {
    let routed = route_step(msg);
    if versions_compatible(msg.version, VERSION@) {
        routed
    } else {
        StepModel { replies: seq![version_error(msg.version)] + routed.replies, ..routed }
    }
}

/// The response to a store call that succeeded, or `None` where the outcome does not
/// answer the call.
pub open spec fn success_reply(
    call: StoreCallModel,
    client_version: Seq<char>,
    outcome: StoreOutcomeModel,
) -> Option<MessageModel<PayloadModel>> {
    match (call, outcome) {
        (StoreCallModel::Store { path, .. }, StoreOutcomeModel::Stored) => Some(
            field_reply(VERSION@, "Ok"@, "file "@ + path + " written"@),
        ),
        (StoreCallModel::EncryptRaw { .. }, StoreOutcomeModel::Encrypted { key, ciphertext, chunks }) => Some(
            field_reply(VERSION@, "value"@, raw_token(ciphertext, key, chunks as nat)),
        ),
        (StoreCallModel::DecryptRaw { .. }, StoreOutcomeModel::Decrypted { plaintext }) => Some(
            field_reply(VERSION@, "value"@, plaintext),
        ),
        (StoreCallModel::Retrieve { .. }, StoreOutcomeModel::Retrieved { temp_path, original_path }) => Some(
            envelope(
                VERSION@,
                MessageType::Response,
                PayloadModel::Decrypt(DecryptModel { temp_p: temp_path, orig_p: original_path, ttl: TTL }),
                None,
            ),
        ),
        (StoreCallModel::Remove { .. }, StoreOutcomeModel::Removed) => Some(
            field_reply(client_version, "value"@, "Ok"@),
        ),
        _ => None,
    }
}

/// The step that the store's outcome leads to: the response or a generic error, then the
/// acknowledgement; a decrypted file is handed to a reaper.
pub open spec fn outcome_step(
    call: StoreCallModel,
    client_version: Seq<char>,
    outcome: StoreOutcomeModel,
) -> StepModel {
    match success_reply(call, client_version, outcome) {
        Some(m) => StepModel {
            replies: seq![m, ack_model(VERSION@)],
            call: None,
            reap: match outcome {
                StoreOutcomeModel::Retrieved { temp_path, .. } => Some(
                    ReapModel { path: temp_path, ttl: TTL },
                ),
                _ => None,
            },
            close: true,
        },
        None => closing(seq![failure_reply(call), ack_model(VERSION@)]),
    }
}

// ---------------------------------------------------------------------------------------
// Building the messages.

fn push_reply(replies: &mut Vec<Message<Payload>>, m: Message<Payload>)
    ensures
        message_views(final(replies)@) == message_views(old(replies)@).push(m@),
{
    let ghost before = replies@;
    replies.push(m);
    proof {
        assert(message_views(replies@) =~= message_views(before).push(m@));
    }
}

fn text_field(key: &str, value: String) -> (r: Payload)
    ensures
        r@ == field(key@, value@),
{
    Payload::Field { key: String::from_str(key), value }
}

/// The acknowledgement that closes an exchange, stamped with `version`.
pub fn acknowledgement(version: &str) -> (m: Message<Payload>)
    ensures
        m@ == ack_model(version@),
        m.well_formed(),
{
    Message {
        version: String::from_str(version),
        msg_type: MessageType::Acknowledge,
        payload: Payload::Empty,
        error: None,
    }
}

fn error_message(code: ErrorCode, message: String, payload: Payload) -> (m: Message<Payload>)
    ensures
        m@ == error_reply(code, message@, payload@),
        m.well_formed(),
{
    Message {
        version: String::from_str(VERSION),
        msg_type: MessageType::ErrorResponse,
        payload,
        error: Some(DusaError { code, message }),
    }
}

fn field_message(version: &str, key: &str, value: String) -> (m: Message<Payload>)
    ensures
        m@ == field_reply(version@, key@, value@),
        m.well_formed(),
{
    Message {
        version: String::from_str(version),
        msg_type: MessageType::Response,
        payload: text_field(key, value),
        error: None,
    }
}

/// An internal error reported with the text `err`.
pub fn internal_error(err: &str) -> (m: Message<Payload>)
    ensures
        m@ == error_reply(
            ErrorCode::InternalError,
            err@,
            field("error"@, "Internal Server Error"@),
        ),
        m.well_formed(),
{
    error_message(
        ErrorCode::InternalError,
        String::from_str(err),
        text_field("error", String::from_str("Internal Server Error")),
    )
}

fn version_error_message(incoming: &str) -> (m: Message<Payload>)
    ensures
        m@ == version_error(incoming@),
{
    let mut text = String::from_str("Client and Server out of date. Server version: ");
    text.append(VERSION);
    text.append(", Client version: ");
    text.append(incoming);
    error_message(ErrorCode::InvalidVersion, text, Payload::Empty)
}

fn failure_message(call: &StoreCall) -> (m: Message<Payload>)
    ensures
        m@ == failure_reply(call@),
{
    let text: &str = match call {
        StoreCall::Store { .. } => "Error occurred while inserting",
        StoreCall::EncryptRaw { .. } => "Error occurred while encrypting the data",
        StoreCall::Remove { .. } => "Error occurred while removing the data",
        _ => "Error occurred while decrypting the data",
    };
    error_message(ErrorCode::InternalError, String::from_str(text), text_field("Error", String::from_str(text)))
}

/// The token `<ciphertext>-<key>-<chunks>` that hands an in-memory encryption to its owner.
pub fn raw_token_text(ciphertext: &str, key: &str, chunks: usize) -> (r: String)
    ensures
        r@ == raw_token(ciphertext@, key@, chunks as nat),
{
    let mut r = String::from_str(ciphertext);
    r.append("-");
    r.append(key);
    r.append("-");
    let digits = decimal_string(chunks as u64);
    r.append(digits.as_str());
    proof {
        reveal_strlit("-");
        assert(r@ =~= raw_token(ciphertext@, key@, chunks as nat));
    }
    r
}

/// The store call that decrypting the token `data` makes: its first two pieces between
/// dashes are the ciphertext and the key, its third the chunk count.
pub fn decrypt_raw_request(data: &str) -> (c: StoreCall)
    ensures
        c@ == decrypt_raw_call(data@),
{
    let parts = split(data, '-');
    let ghost views = split_on(data@, '-');
    proof {
        assert(parts@.len() == views.len());
    }
    let ciphertext = if parts.len() > 0 {
        proof {
            assert(parts@[0]@ == views[0]);
        }
        parts[0].clone()
    } else {
        String::new()
    };
    let key = if parts.len() > 1 {
        proof {
            assert(parts@[1]@ == views[1]);
        }
        parts[1].clone()
    } else {
        String::new()
    };
    let chunks: usize = if parts.len() > 2 {
        proof {
            assert(parts@[2]@ == views[2]);
        }
        match parse_bounded(parts[2].as_str(), usize::MAX as u64) {
            Some(n) => n as usize,
            None => 1,
        }
    } else {
        1
    };
    proof {
        assert(ciphertext@ == piece_or_empty(views, 0));
        assert(key@ == piece_or_empty(views, 1));
    }
    StoreCall::DecryptRaw { ciphertext, key, chunks }
}

fn copy_call(c: &StoreCall) -> (r: StoreCall)
    ensures
        r@ == c@,
{
    match c {
        StoreCall::Store { path, owner, name } => StoreCall::Store {
            path: path.clone(),
            owner: owner.clone(),
            name: name.clone(),
        },
        StoreCall::Retrieve { owner, name, uid } => StoreCall::Retrieve {
            owner: owner.clone(),
            name: name.clone(),
            uid: *uid,
        },
        StoreCall::Remove { owner, name } => StoreCall::Remove {
            owner: owner.clone(),
            name: name.clone(),
        },
        StoreCall::EncryptRaw { data } => StoreCall::EncryptRaw { data: data.clone() },
        StoreCall::DecryptRaw { ciphertext, key, chunks } => StoreCall::DecryptRaw {
            ciphertext: ciphertext.clone(),
            key: key.clone(),
            chunks: *chunks,
        },
    }
}

/// What a request leads to: the store call to make, or the answer to give at once.
pub fn request_decision(r: &RequestPayload) -> (d: Result<StoreCall, Message<Payload>>)
    ensures
        match request_action(r@) {
            RequestAction::Call(c) => d is Ok && d->Ok_0@ == c,
            RequestAction::Answer(m) => d is Err && d->Err_0@ == m,
        },
{
    match r {
        RequestPayload::Write(w) => Ok(
            StoreCall::Store { path: w.path.clone(), owner: w.owner.clone(), name: w.name.clone() },
        ),
        RequestPayload::PlainText(p) => match p.command {
            Commands::EncryptRawText => Ok(StoreCall::EncryptRaw { data: p.data.clone() }),
            Commands::DecryptRawText => Ok(decrypt_raw_request(p.data.as_str())),
            _ => Err(
                error_message(
                    ErrorCode::InternalError,
                    String::from_str("Invalid command parsing"),
                    Payload::Empty,
                ),
            ),
        },
        RequestPayload::Simple(q) => match q.command {
            Commands::DecryptFile => Ok(
                StoreCall::Retrieve { owner: q.owner.clone(), name: q.name.clone(), uid: q.uid },
            ),
            Commands::RemoveFile => Ok(
                StoreCall::Remove { owner: q.owner.clone(), name: q.name.clone() },
            ),
            Commands::PingFile => Err(
                field_message(VERSION, "value", String::from_str("Not implemented")),
            ),
            _ => Err(
                error_message(
                    ErrorCode::InternalError,
                    String::from_str("Invalid command parsing"),
                    Payload::Empty,
                ),
            ),
        },
    }
}

// ---------------------------------------------------------------------------------------
// The state of one connection.

/// Where a connection stands.
pub enum Stage {
    /// Nothing received yet.
    AwaitRequest,
    /// A store call is out; the envelope came with `client_version`.
    AwaitStore { call: StoreCall, client_version: String },
    /// The exchange is over.
    Closed,
}

pub enum StageModel {
    AwaitRequest,
    AwaitStore { call: StoreCallModel, client_version: Seq<char> },
    Closed,
}

/// One connection of the daemon: one request, its response, the acknowledgement.
pub struct Session {
    stage: Stage,
}

impl View for Session {
    type V = StageModel;

    closed spec fn view(&self) -> StageModel {
        match self.stage {
            Stage::AwaitRequest => StageModel::AwaitRequest,
            Stage::AwaitStore { call, client_version } => StageModel::AwaitStore {
                call: call@,
                client_version: client_version@,
            },
            Stage::Closed => StageModel::Closed,
        }
    }
}

impl Session {
    /// A fresh connection, waiting for its request.
    pub fn new() -> (s: Session)
        ensures
            s@ == StageModel::AwaitRequest,
    {
        Session { stage: Stage::AwaitRequest }
    }

    /// Whether the exchange is over.
    pub fn is_closed(&self) -> (r: bool)
        ensures
            r == (self@ == StageModel::Closed),
    {
        match self.stage {
            Stage::Closed => true,
            _ => false,
        }
    }

    /// Reading the request failed: the connection is dropped without an answer.
    pub fn receive_failed(&mut self) -> (step: Step)
        ensures
            step@ == closing(Seq::<MessageModel<PayloadModel>>::empty()),
            final(self)@ == StageModel::Closed,
    {
        self.stage = Stage::Closed;
        let step = Step { replies: Vec::new(), call: None, reap: None, close: true };
        assert(step@.replies =~= Seq::<MessageModel<PayloadModel>>::empty());
        step
    }

    /// Handles the envelope that arrived.
    pub fn receive(&mut self, msg: &Message<Payload>) -> (step: Step)
        requires
            old(self)@ == StageModel::AwaitRequest,
        ensures
            step@ == receive_step(msg@),
            match step@.call {
                Some(c) => final(self)@ == (StageModel::AwaitStore {
                    call: c,
                    client_version: msg@.version,
                }),
                None => final(self)@ == StageModel::Closed,
            },
    {
        let mut replies: Vec<Message<Payload>> = Vec::new();
        if !check_version(msg.version.as_str()) {
            push_reply(&mut replies, version_error_message(msg.version.as_str()));
        }
        proof {
            assert(message_views(replies@) =~= (if versions_compatible(msg@.version, VERSION@) {
                Seq::<MessageModel<PayloadModel>>::empty()
            } else {
                seq![version_error(msg@.version)]
            }));
        }
        let ghost pre = message_views(replies@);
        match msg.msg_type {
            MessageType::Request => match &msg.payload {
                Payload::Request(r) => match request_decision(r) {
                    Ok(call) => {
                        assert(pre + Seq::<MessageModel<PayloadModel>>::empty() =~= pre);
                        self.stage = Stage::AwaitStore {
                            call: copy_call(&call),
                            client_version: msg.version.clone(),
                        };
                        Step { replies, call: Some(call), reap: None, close: false }
                    },
                    Err(answer) => {
                        let ghost a = answer@;
                        push_reply(&mut replies, answer);
                        push_reply(&mut replies, acknowledgement(VERSION));
                        assert(message_views(replies@) =~= pre + seq![a, ack_model(VERSION@)]);
                        self.stage = Stage::Closed;
                        Step { replies, call: None, reap: None, close: true }
                    },
                },
                _ => {
                    push_reply(
                        &mut replies,
                        error_message(
                            ErrorCode::InvalidPayload,
                            String::from_str("Request payload could not be read"),
                            Payload::Empty,
                        ),
                    );
                    push_reply(&mut replies, acknowledgement(VERSION));
                    assert(message_views(replies@) =~= pre + seq![
                        invalid_payload_error(),
                        ack_model(VERSION@),
                    ]);
                    self.stage = Stage::Closed;
                    Step { replies, call: None, reap: None, close: true }
                },
            },
            MessageType::Simple => {
                push_reply(&mut replies, acknowledgement(msg.version.as_str()));
                assert(message_views(replies@) =~= pre + seq![ack_model(msg@.version)]);
                self.stage = Stage::Closed;
                Step { replies, call: None, reap: None, close: true }
            },
            _ => {
                push_reply(
                    &mut replies,
                    error_message(
                        ErrorCode::UnknownMessageType,
                        String::from_str("Unknown message type"),
                        Payload::Empty,
                    ),
                );
                assert(message_views(replies@) =~= pre + seq![unknown_type_error()]);
                self.stage = Stage::Closed;
                Step { replies, call: None, reap: None, close: true }
            },
        }
    }

    /// Handles what the store answered to the call that the last step asked for.
    pub fn store_answered(&mut self, outcome: &StoreOutcome) -> (step: Step)
        requires
            old(self)@ is AwaitStore,
        ensures
            step@ == outcome_step(
                old(self)@->AwaitStore_call,
                old(self)@->AwaitStore_client_version,
                outcome@,
            ),
            final(self)@ == StageModel::Closed,
    {
        let (call, client_version) = match &self.stage {
            Stage::AwaitStore { call, client_version } => (copy_call(call), client_version.clone()),
            _ => {
                proof {
                    assert(false);
                }
                return self.receive_failed();
            },
        };
        self.stage = Stage::Closed;
        let mut replies: Vec<Message<Payload>> = Vec::new();
        let mut reap: Option<ReapTask> = None;
        match (&call, outcome) {
            (StoreCall::Store { path, .. }, StoreOutcome::Stored) => {
                let mut text = String::from_str("file ");
                text.append(path.as_str());
                text.append(" written");
                push_reply(&mut replies, field_message(VERSION, "Ok", text));
            },
            (StoreCall::EncryptRaw { .. }, StoreOutcome::Encrypted { key, ciphertext, chunks }) => {
                let token = raw_token_text(ciphertext.as_str(), key.as_str(), *chunks);
                push_reply(&mut replies, field_message(VERSION, "value", token));
            },
            (StoreCall::DecryptRaw { .. }, StoreOutcome::Decrypted { plaintext }) => {
                push_reply(&mut replies, field_message(VERSION, "value", plaintext.clone()));
            },
            (StoreCall::Retrieve { .. }, StoreOutcome::Retrieved { temp_path, original_path }) => {
                let data = DecryptResponseData {
                    temp_p: temp_path.clone(),
                    orig_p: original_path.clone(),
                    ttl: TTL,
                };
                push_reply(
                    &mut replies,
                    Message {
                        version: String::from_str(VERSION),
                        msg_type: MessageType::Response,
                        payload: Payload::Decrypt(data),
                        error: None,
                    },
                );
                reap = Some(ReapTask { path: temp_path.clone(), ttl: TTL });
            },
            (StoreCall::Remove { .. }, StoreOutcome::Removed) => {
                push_reply(
                    &mut replies,
                    field_message(client_version.as_str(), "value", String::from_str("Ok")),
                );
            },
            _ => {
                push_reply(&mut replies, failure_message(&call));
            },
        }
        push_reply(&mut replies, acknowledgement(VERSION));
        let step = Step { replies, call: None, reap, close: true };
        proof {
            assert(step@.replies =~= outcome_step(call@, client_version@, outcome@).replies);
        }
        step
    }
}

// ---------------------------------------------------------------------------------------
// Laws of a session.

/// An envelope whose version differs from the daemon's in the patch number alone is
/// handled as if the versions were equal. One that differs in major or minor is first
/// answered with an `InvalidVersion` error, and is then handled all the same.
pub proof fn lemma_version_check(
    msg: MessageModel<PayloadModel>,
    major: nat,
    minor: nat,
    patch: nat,
)
    requires
        major <= u32::MAX,
        minor <= u32::MAX,
        patch <= u32::MAX,
        msg.version == version_text(major, minor, patch),
    ensures
        version_numbers(VERSION@) == Some((major, minor)) ==> receive_step(msg) == route_step(
            msg,
        ),
        version_numbers(VERSION@) != Some((major, minor)) ==> {
            let step = receive_step(msg);
            &&& step.replies[0] == version_error(msg.version)
            &&& step.replies[0].msg_type == MessageType::ErrorResponse
            &&& step.replies[0].error->0.code == ErrorCode::InvalidVersion
            &&& step.replies.drop_first() == route_step(msg).replies
            &&& step.call == route_step(msg).call
            &&& step.close == route_step(msg).close
        },
{
    crate::version::lemma_version_text_numbers(major, minor, patch);
    crate::version::lemma_own_version();
    if version_numbers(VERSION@) != Some((major, minor)) {
        let routed = route_step(msg);
        assert((seq![version_error(msg.version)] + routed.replies).drop_first() =~= routed.replies);
    }
}

/// The token of an in-memory encryption reads back as the ciphertext, key and chunk count
/// it was made of, so long as neither ciphertext nor key holds a dash.
pub proof fn lemma_raw_token_round_trip(ciphertext: Seq<char>, key: Seq<char>, chunks: usize)
    requires
        !ciphertext.contains('-'),
        !key.contains('-'),
    ensures
        decrypt_raw_call(raw_token(ciphertext, key, chunks as nat)) == (StoreCallModel::DecryptRaw {
            ciphertext,
            key,
            chunks,
        }),
{
    let digits = decimal_digits(chunks as nat);
    lemma_decimal_round_trip(chunks as nat);
    lemma_digits_without(digits, '-');
    lemma_split_three(ciphertext, key, digits, '-');
    let parts = split_on(raw_token(ciphertext, key, chunks as nat), '-');
    assert(parts == seq![ciphertext, key, digits]);
    assert(parts[2] == digits);
    assert(bounded_value(digits, usize::MAX as nat) == Some(chunks as nat));
}

/// The token that encrypting a text answers with, sent back for decryption, makes the
/// store decrypt with exactly the ciphertext, key and chunk count the encryption gave.
pub proof fn lemma_encrypt_then_decrypt(
    data: Seq<char>,
    client_version: Seq<char>,
    key: Seq<char>,
    ciphertext: Seq<char>,
    chunks: usize,
    uid: u32,
)
    requires
        !ciphertext.contains('-'),
        !key.contains('-'),
    ensures
        ({
            let token = raw_token(ciphertext, key, chunks as nat);
            let step = outcome_step(
                StoreCallModel::EncryptRaw { data },
                client_version,
                StoreOutcomeModel::Encrypted { key, ciphertext, chunks },
            );
            &&& step.replies == seq![field_reply(VERSION@, "value"@, token), ack_model(VERSION@)]
            &&& request_action(
                RequestModel::PlainText(
                    PlainTextModel { command: Commands::DecryptRawText, data: token, uid },
                ),
            ) == RequestAction::Call(StoreCallModel::DecryptRaw { ciphertext, key, chunks })
        }),
{
    lemma_raw_token_round_trip(ciphertext, key, chunks);
}

/// A store call that fails is answered with an internal error and the acknowledgement,
/// and the connection is closed; nothing is left to reap.
pub proof fn lemma_failure_answered(call: StoreCallModel, client_version: Seq<char>)
    ensures
        ({
            let step = outcome_step(call, client_version, StoreOutcomeModel::Failed);
            &&& step == closing(seq![failure_reply(call), ack_model(VERSION@)])
            &&& step.replies[0].msg_type == MessageType::ErrorResponse
            &&& step.replies[0].error == Some(
                DusaErrorModel { code: ErrorCode::InternalError, message: failure_text(call) },
            )
            &&& step.reap is None
        }),
{
}

/// A decrypted file is reported with the time it stays on disk, and a reaper is started
/// for exactly that file and that time.
pub proof fn lemma_decrypted_file_reaped(
    owner: Seq<char>,
    name: Seq<char>,
    uid: u32,
    client_version: Seq<char>,
    temp_path: Seq<char>,
    original_path: Seq<char>,
)
    ensures
        ({
            let step = outcome_step(
                StoreCallModel::Retrieve { owner, name, uid },
                client_version,
                StoreOutcomeModel::Retrieved { temp_path, original_path },
            );
            &&& step.replies[0].payload == PayloadModel::Decrypt(
                DecryptModel { temp_p: temp_path, orig_p: original_path, ttl: TTL },
            )
            &&& step.reap == Some(ReapModel { path: temp_path, ttl: TTL })
            &&& step.close
        }),
{
}

/// An envelope carries a structured error exactly when it is an error response.
pub open spec fn model_well_formed(m: MessageModel<PayloadModel>) -> bool {
    m.error is Some <==> m.msg_type == MessageType::ErrorResponse
}

/// Every envelope that the daemon sends carries a structured error exactly when it is an
/// error response.
pub proof fn lemma_replies_well_formed(
    msg: MessageModel<PayloadModel>,
    call: StoreCallModel,
    client_version: Seq<char>,
    outcome: StoreOutcomeModel,
)
    ensures
        forall|i: int|
            0 <= i < receive_step(msg).replies.len() ==> model_well_formed(
                #[trigger] receive_step(msg).replies[i],
            ),
        forall|i: int|
            0 <= i < outcome_step(call, client_version, outcome).replies.len() ==> model_well_formed(
                #[trigger] outcome_step(call, client_version, outcome).replies[i],
            ),
{
    let routed = route_step(msg);
    assert forall|i: int| 0 <= i < routed.replies.len() implies model_well_formed(
        #[trigger] routed.replies[i],
    ) by {}
    if !versions_compatible(msg.version, VERSION@) {
        let all = seq![version_error(msg.version)] + routed.replies;
        assert forall|i: int| 0 <= i < all.len() implies model_well_formed(#[trigger] all[i]) by {
            if i > 0 {
                assert(all[i] == routed.replies[i - 1]);
            }
        }
    }
}

/// A write and a decryption of a file ask the store about exactly the key (owner and name)
/// that the request names.
pub proof fn lemma_keys_carried(w: WriteModel, s: SimpleModel)
    requires
        s.command == Commands::DecryptFile,
    ensures
        request_action(RequestModel::Write(w)) == RequestAction::Call(
            StoreCallModel::Store { path: w.path, owner: w.owner, name: w.name },
        ),
        request_action(RequestModel::Simple(s)) == RequestAction::Call(
            StoreCallModel::Retrieve { owner: s.owner, name: s.name, uid: s.uid },
        ),
{
}

} // verus!
