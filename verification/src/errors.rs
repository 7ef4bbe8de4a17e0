use vstd::prelude::*;
use vstd::string::*;

verus! {

/// The kind of an [`Error`], without its cause.
#[derive(Debug, Clone, Copy, PartialEq, Eq, Structural)]
pub enum ErrorKind {
    Serialization,
    Parsing,
    RedisConnection,
    AddStreamMessage,
    ReadStreamMessage,
    ClaimStreamMessage,
    PendingStreamMessage,
    DeleteStreamMessage,
    AckStreamMessage,
    CreateConsumerGroup,
    CreateStream,
}

/// Everything that can go wrong while talking to the stream; each variant
/// carries the text of its cause.
#[derive(Debug, Clone, PartialEq, Eq)]
pub enum Error {
    Serialization(String),
    Parsing(String),
    RedisConnection(String),
    AddStreamMessage(String),
    ReadStreamMessage(String),
    ClaimStreamMessage(String),
    PendingStreamMessage(String),
    DeleteStreamMessage(String),
    AckStreamMessage(String),
    CreateConsumerGroup(String),
    CreateStream(String),
}

/// HTTP status that every error is answered with: internal server error.
pub const INTERNAL_SERVER_ERROR: u16 = 500;

/// A reply to an HTTP request: status code and (JSON string) body text.
pub struct HttpReply {
    pub status: u16,
    pub body: String,
}

impl View for HttpReply {
    type V = (u16, Seq<char>);

    open spec fn view(&self) -> (u16, Seq<char>) {
        (self.status, self.body@)
    }
}

impl View for Error {
    type V = (ErrorKind, Seq<char>);

    open spec fn view(&self) -> (ErrorKind, Seq<char>) {
        (self.spec_kind(), self.spec_cause()@)
    }
}

/// The fixed text that the message of an error of the given kind starts with.
pub open spec fn message_prefix(kind: ErrorKind) -> Seq<char> {
    match kind {
        ErrorKind::Serialization => "Failed serialization. Cause: "@,
        ErrorKind::Parsing => "Payload parsing failed. Cause: "@,
        ErrorKind::RedisConnection => "Redis connection failed. Cause: "@,
        ErrorKind::AddStreamMessage => "Failed to add to stream. Cause: "@,
        ErrorKind::ReadStreamMessage => "Failed to read message from stream. Cause: "@,
        ErrorKind::ClaimStreamMessage => "Failed to claim from stream. Cause: "@,
        ErrorKind::PendingStreamMessage => "Failed to get pending messages. Cause: "@,
        ErrorKind::DeleteStreamMessage => "Failed to delete stream message. Cause: "@,
        ErrorKind::AckStreamMessage => "Failed to acknowledge message. Cause: "@,
        ErrorKind::CreateConsumerGroup => "Failed to create group. Cause: "@,
        ErrorKind::CreateStream => "Failed to create stream. Cause: "@,
    }
}

/// The message of an error: its kind's prefix followed by its cause.
pub open spec fn spec_message(e: (ErrorKind, Seq<char>)) -> Seq<char> {
    message_prefix(e.0) + e.1
}

impl Error {
    pub open spec fn spec_kind(&self) -> ErrorKind {
        match self {
            Error::Serialization(_) => ErrorKind::Serialization,
            Error::Parsing(_) => ErrorKind::Parsing,
            Error::RedisConnection(_) => ErrorKind::RedisConnection,
            Error::AddStreamMessage(_) => ErrorKind::AddStreamMessage,
            Error::ReadStreamMessage(_) => ErrorKind::ReadStreamMessage,
            Error::ClaimStreamMessage(_) => ErrorKind::ClaimStreamMessage,
            Error::PendingStreamMessage(_) => ErrorKind::PendingStreamMessage,
            Error::DeleteStreamMessage(_) => ErrorKind::DeleteStreamMessage,
            Error::AckStreamMessage(_) => ErrorKind::AckStreamMessage,
            Error::CreateConsumerGroup(_) => ErrorKind::CreateConsumerGroup,
            Error::CreateStream(_) => ErrorKind::CreateStream,
        }
    }

    pub open spec fn spec_cause(&self) -> String {
        match self {
            Error::Serialization(c) => *c,
            Error::Parsing(c) => *c,
            Error::RedisConnection(c) => *c,
            Error::AddStreamMessage(c) => *c,
            Error::ReadStreamMessage(c) => *c,
            Error::ClaimStreamMessage(c) => *c,
            Error::PendingStreamMessage(c) => *c,
            Error::DeleteStreamMessage(c) => *c,
            Error::AckStreamMessage(c) => *c,
            Error::CreateConsumerGroup(c) => *c,
            Error::CreateStream(c) => *c,
        }
    }

    /// Builds the error of the given kind with the given cause.
    pub fn new(kind: ErrorKind, cause: String) -> (e: Error)
        ensures
            e@ == (kind, cause@),
    {
        match kind {
            ErrorKind::Serialization => Error::Serialization(cause),
            ErrorKind::Parsing => Error::Parsing(cause),
            ErrorKind::RedisConnection => Error::RedisConnection(cause),
            ErrorKind::AddStreamMessage => Error::AddStreamMessage(cause),
            ErrorKind::ReadStreamMessage => Error::ReadStreamMessage(cause),
            ErrorKind::ClaimStreamMessage => Error::ClaimStreamMessage(cause),
            ErrorKind::PendingStreamMessage => Error::PendingStreamMessage(cause),
            ErrorKind::DeleteStreamMessage => Error::DeleteStreamMessage(cause),
            ErrorKind::AckStreamMessage => Error::AckStreamMessage(cause),
            ErrorKind::CreateConsumerGroup => Error::CreateConsumerGroup(cause),
            ErrorKind::CreateStream => Error::CreateStream(cause),
        }
    }

    /// The kind of this error.
    pub fn kind(&self) -> (k: ErrorKind)
        ensures
            k == self@.0,
    {
        match self {
            Error::Serialization(_) => ErrorKind::Serialization,
            Error::Parsing(_) => ErrorKind::Parsing,
            Error::RedisConnection(_) => ErrorKind::RedisConnection,
            Error::AddStreamMessage(_) => ErrorKind::AddStreamMessage,
            Error::ReadStreamMessage(_) => ErrorKind::ReadStreamMessage,
            Error::ClaimStreamMessage(_) => ErrorKind::ClaimStreamMessage,
            Error::PendingStreamMessage(_) => ErrorKind::PendingStreamMessage,
            Error::DeleteStreamMessage(_) => ErrorKind::DeleteStreamMessage,
            Error::AckStreamMessage(_) => ErrorKind::AckStreamMessage,
            Error::CreateConsumerGroup(_) => ErrorKind::CreateConsumerGroup,
            Error::CreateStream(_) => ErrorKind::CreateStream,
        }
    }

    /// The text of the cause this error carries.
    pub fn cause(&self) -> (c: &String)
        ensures
            c@ == self@.1,
    {
        match self {
            Error::Serialization(c) => c,
            Error::Parsing(c) => c,
            Error::RedisConnection(c) => c,
            Error::AddStreamMessage(c) => c,
            Error::ReadStreamMessage(c) => c,
            Error::ClaimStreamMessage(c) => c,
            Error::PendingStreamMessage(c) => c,
            Error::DeleteStreamMessage(c) => c,
            Error::AckStreamMessage(c) => c,
            Error::CreateConsumerGroup(c) => c,
            Error::CreateStream(c) => c,
        }
    }

    /// The human-readable message of this error: a fixed text that names
    /// what failed, then "Cause: " and the cause.
    pub fn message(&self) -> (m: String)
        ensures
            m@ == spec_message(self@),
    {
        let prefix: &str = match self {
            Error::Serialization(_) => "Failed serialization. Cause: ",
            Error::Parsing(_) => "Payload parsing failed. Cause: ",
            Error::RedisConnection(_) => "Redis connection failed. Cause: ",
            Error::AddStreamMessage(_) => "Failed to add to stream. Cause: ",
            Error::ReadStreamMessage(_) => "Failed to read message from stream. Cause: ",
            Error::ClaimStreamMessage(_) => "Failed to claim from stream. Cause: ",
            Error::PendingStreamMessage(_) => "Failed to get pending messages. Cause: ",
            Error::DeleteStreamMessage(_) => "Failed to delete stream message. Cause: ",
            Error::AckStreamMessage(_) => "Failed to acknowledge message. Cause: ",
            Error::CreateConsumerGroup(_) => "Failed to create group. Cause: ",
            Error::CreateStream(_) => "Failed to create stream. Cause: ",
        };
        let text = String::from_str(prefix);
        text.concat(self.cause().as_str())
    }

    /// The HTTP status an error is answered with: always 500.
    pub fn status_code(&self) -> (s: u16)
        ensures
            s == INTERNAL_SERVER_ERROR,
    {
        INTERNAL_SERVER_ERROR
    }

    /// The HTTP reply to an error: its status code and its message as body.
    pub fn error_response(&self) -> (r: HttpReply)
        ensures
            r@ == (INTERNAL_SERVER_ERROR, spec_message(self@)),
    {
        HttpReply { status: self.status_code(), body: self.message() }
    }
}

} // verus!
