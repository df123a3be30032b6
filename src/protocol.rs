use vstd::prelude::*;

verus! {

/// Version of the protocol spoken by this library, as `major.minor.patch`.
pub const VERSION: &'static str = "0.1.0";

/// Seconds that a decrypted file stays on disk before it is taken back and removed.
pub const TTL: u64 = 5;

/// Where the daemon listens.
pub const SOCKET_FILE: &'static str = "/var/run/dusa/dusa.sock";

/// Commands that a request can carry.
#[derive(Clone, Copy, Debug, PartialEq, Eq, Structural)]
pub enum Commands {
    EncryptRawText,
    DecryptRawText,
    DecryptFile,
    RemoveFile,
    PingFile,
}

/// The short name under which a command is shown.
pub open spec fn command_text(c: Commands) -> Seq<char> {
    match c {
        Commands::EncryptRawText => "et"@,
        Commands::DecryptRawText => "dt"@,
        Commands::DecryptFile => "df"@,
        Commands::RemoveFile => "rf"@,
        Commands::PingFile => "pf"@,
    }
}

impl Commands {
    /// The short name of the command.
    pub fn display(&self) -> (r: String)
        ensures
            r@ == command_text(*self),
    {
        match self {
            Commands::EncryptRawText => String::from_str("et"),
            Commands::DecryptRawText => String::from_str("dt"),
            Commands::DecryptFile => String::from_str("df"),
            Commands::RemoveFile => String::from_str("rf"),
            Commands::PingFile => String::from_str("pf"),
        }
    }
}

/// Kinds of envelope exchanged on the channel.
#[derive(Clone, Copy, Debug, PartialEq, Eq, Structural)]
pub enum MessageType {
    Request,
    Response,
    ErrorResponse,
    Simple,
    Acknowledge,
    Test,
}

/// The label under which a message type is shown.
pub open spec fn message_type_text(t: MessageType) -> Seq<char> {
    match t {
        MessageType::Request => "Request"@,
        MessageType::Response => "Response"@,
        MessageType::ErrorResponse => "Error"@,
        MessageType::Simple => "Simple Message"@,
        MessageType::Acknowledge => "Understood"@,
        MessageType::Test => "Test message"@,
    }
}

impl MessageType {
    /// The label of the message type.
    pub fn display(&self) -> (r: String)
        ensures
            r@ == message_type_text(*self),
    {
        match self {
            MessageType::Request => String::from_str("Request"),
            MessageType::Response => String::from_str("Response"),
            MessageType::ErrorResponse => String::from_str("Error"),
            MessageType::Simple => String::from_str("Simple Message"),
            MessageType::Acknowledge => String::from_str("Understood"),
            MessageType::Test => String::from_str("Test message"),
        }
    }
}

/// Error codes carried by an error response.
#[derive(Clone, Copy, Debug, PartialEq, Eq, Structural)]
pub enum ErrorCode {
    UnknownMessageType,
    InvalidPayload,
    InvalidVersion,
    InternalError,
    InvalidPermissions,
}

/// The sentence under which an error code is shown.
pub open spec fn error_code_text(c: ErrorCode) -> Seq<char> {
    match c {
        ErrorCode::UnknownMessageType => "Unknown message type"@,
        ErrorCode::InvalidPayload => "Invalid payload"@,
        ErrorCode::InternalError => "Internal error"@,
        ErrorCode::InvalidVersion => "We aren't speaking the same language"@,
        ErrorCode::InvalidPermissions => "You have no authority here"@,
    }
}

impl ErrorCode {
    /// The sentence of the error code.
    pub fn display(&self) -> (r: String)
        ensures
            r@ == error_code_text(*self),
    {
        match self {
            ErrorCode::UnknownMessageType => String::from_str("Unknown message type"),
            ErrorCode::InvalidPayload => String::from_str("Invalid payload"),
            ErrorCode::InternalError => String::from_str("Internal error"),
            ErrorCode::InvalidVersion => String::from_str("We aren't speaking the same language"),
            ErrorCode::InvalidPermissions => String::from_str("You have no authority here"),
        }
    }
}

/// The structured error of an error response.
#[derive(Clone, Debug, PartialEq, Eq)]
pub struct DusaError {
    pub code: ErrorCode,
    pub message: String,
}

pub struct DusaErrorModel {
    pub code: ErrorCode,
    pub message: Seq<char>,
}

impl View for DusaError {
    type V = DusaErrorModel;

    open spec fn view(&self) -> DusaErrorModel {
        DusaErrorModel { code: self.code, message: self.message@ }
    }
}

/// Request to store the plaintext file at `path` under the key (`owner`, `name`).
#[derive(Clone, Debug, PartialEq, Eq)]
pub struct RequestRecsWrite {
    pub path: String,
    pub owner: String,
    pub name: String,
    pub uid: u32,
}

pub struct WriteModel {
    pub path: Seq<char>,
    pub owner: Seq<char>,
    pub name: Seq<char>,
    pub uid: u32,
}

impl View for RequestRecsWrite {
    type V = WriteModel;

    open spec fn view(&self) -> WriteModel {
        WriteModel { path: self.path@, owner: self.owner@, name: self.name@, uid: self.uid }
    }
}

/// Request to encrypt or decrypt an in-memory text.
#[derive(Clone, Debug, PartialEq, Eq)]
pub struct RequestRecsPlainText {
    pub command: Commands,
    pub data: String,
    pub uid: u32,
}

pub struct PlainTextModel {
    pub command: Commands,
    pub data: Seq<char>,
    pub uid: u32,
}

impl View for RequestRecsPlainText {
    type V = PlainTextModel;

    open spec fn view(&self) -> PlainTextModel {
        PlainTextModel { command: self.command, data: self.data@, uid: self.uid }
    }
}

/// Request that names a stored entry by its key (`owner`, `name`).
#[derive(Clone, Debug, PartialEq, Eq)]
pub struct RequestRecsSimple {
    pub command: Commands,
    pub owner: String,
    pub name: String,
    pub uid: u32,
}

pub struct SimpleModel {
    pub command: Commands,
    pub owner: Seq<char>,
    pub name: Seq<char>,
    pub uid: u32,
}

impl View for RequestRecsSimple {
    type V = SimpleModel;

    open spec fn view(&self) -> SimpleModel {
        SimpleModel { command: self.command, owner: self.owner@, name: self.name@, uid: self.uid }
    }
}

/// A status and its detail.
#[derive(Clone, Debug, PartialEq, Eq)]
pub struct ResponseData {
    pub status: String,
    pub detail: String,
}

pub struct ResponseDataModel {
    pub status: Seq<char>,
    pub detail: Seq<char>,
}

impl View for ResponseData {
    type V = ResponseDataModel;

    open spec fn view(&self) -> ResponseDataModel {
        ResponseDataModel { status: self.status@, detail: self.detail@ }
    }
}

/// What a successful file decryption hands back: where the plaintext lies for now, where
/// it belongs, and how many seconds it stays there.
#[derive(Clone, Debug, PartialEq, Eq)]
pub struct DecryptResponseData {
    pub temp_p: String,
    pub orig_p: String,
    pub ttl: u64,
}

pub struct DecryptModel {
    pub temp_p: Seq<char>,
    pub orig_p: Seq<char>,
    pub ttl: u64,
}

impl View for DecryptResponseData {
    type V = DecryptModel;

    open spec fn view(&self) -> DecryptModel {
        DecryptModel { temp_p: self.temp_p@, orig_p: self.orig_p@, ttl: self.ttl }
    }
}

/// The three kinds of request.
#[derive(Clone, Debug, PartialEq, Eq)]
pub enum RequestPayload {
    Write(RequestRecsWrite),
    PlainText(RequestRecsPlainText),
    Simple(RequestRecsSimple),
}

pub enum RequestModel {
    Write(WriteModel),
    PlainText(PlainTextModel),
    Simple(SimpleModel),
}

impl View for RequestPayload {
    type V = RequestModel;

    open spec fn view(&self) -> RequestModel {
        match self {
            RequestPayload::Write(r) => RequestModel::Write(r@),
            RequestPayload::PlainText(r) => RequestModel::PlainText(r@),
            RequestPayload::Simple(r) => RequestModel::Simple(r@),
        }
    }
}

/// The payload of an envelope, by shape.
#[derive(Clone, Debug, PartialEq, Eq)]
pub enum Payload {
    /// An empty object.
    Empty,
    /// An object with one text entry `{key: value}`.
    Field { key: String, value: String },
    /// The result of a file decryption.
    Decrypt(DecryptResponseData),
    /// A request.
    Request(RequestPayload),
    /// A payload of none of the shapes above.
    Unreadable,
}

pub enum PayloadModel {
    Empty,
    Field { key: Seq<char>, value: Seq<char> },
    Decrypt(DecryptModel),
    Request(RequestModel),
    Unreadable,
}

impl View for Payload {
    type V = PayloadModel;

    open spec fn view(&self) -> PayloadModel {
        match self {
            Payload::Empty => PayloadModel::Empty,
            Payload::Field { key, value } => PayloadModel::Field { key: key@, value: value@ },
            Payload::Decrypt(d) => PayloadModel::Decrypt(d@),
            Payload::Request(r) => PayloadModel::Request(r@),
            Payload::Unreadable => PayloadModel::Unreadable,
        }
    }
}

/// The envelope of every message on the channel.
#[derive(Clone, Debug, PartialEq, Eq)]
pub struct Message<T> {
    pub version: String,
    pub msg_type: MessageType,
    pub payload: T,
    pub error: Option<DusaError>,
}

pub struct MessageModel<V> {
    pub version: Seq<char>,
    pub msg_type: MessageType,
    pub payload: V,
    pub error: Option<DusaErrorModel>,
}

pub open spec fn error_view(e: Option<DusaError>) -> Option<DusaErrorModel> {
    match e {
        Some(d) => Some(d@),
        None => None,
    }
}

impl<T: View> View for Message<T> {
    type V = MessageModel<T::V>;

    open spec fn view(&self) -> MessageModel<T::V> {
        MessageModel {
            version: self.version@,
            msg_type: self.msg_type,
            payload: self.payload@,
            error: error_view(self.error),
        }
    }
}

impl<T> Message<T> {
    /// An error is carried exactly when the envelope is an error response.
    pub open spec fn well_formed(&self) -> bool {
        self.error.is_some() <==> self.msg_type == MessageType::ErrorResponse
    }
}

} // verus!
