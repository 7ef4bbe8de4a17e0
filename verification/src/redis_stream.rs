use vstd::prelude::*;
use crate::commands::{
    command_failed, creation_message, creation_text, entry_fields,
    entry_fields_view, failure_kind, fields_view, StreamCommand,
};
use crate::errors::{Error, ErrorKind};
use crate::replies::{
    all_have_messages, claimed_from_reply, claimed_messages, convert_from_redis, pending_from_reply,
    pending_view, read_outcome_view, read_reply_messages, results_view, ClaimReply, ReadReply,
};
use crate::schemas::{StreamPendingResult, StreamResult};
use crate::settings::RedisConfig;

verus! {

#[verifier::external_type_specification]
#[verifier::external_body]
pub struct ExRedisClient(redis::Client);

#[verifier::external_type_specification]
#[verifier::external_body]
pub struct ExRedisError(redis::RedisError);

/// Whether `redis::Client::open` accepts `url` as where to reach Redis.
/// That function only parses the URL (scheme, host, port, database,
/// credentials); it does not connect.
pub uninterp spec fn redis_url_accepted(url: Seq<char>) -> bool;

/// Calls `redis::Client::open`, which parses the connection URL, and keeps
/// the client with that URL. Claimed: it succeeds exactly when the URL is
/// accepted, a fact of the URL alone, and the client is the one for that URL.
#[verifier::external_body]
fn open_client(url: &str) -> (r: Result<RedisStream, redis::RedisError>)
    ensures
        r is Ok == redis_url_accepted(url@),
        r matches Ok(s) ==> s.url() == url@,
{
    match redis::Client::open(url) {
        Ok(client) => Ok(RedisStream { client, url: Ghost(url@) }),
        Err(e) => Err(e),
    }
}

/// Calls `RedisError`'s `Display`, the error's text. Nothing is claimed of
/// the text.
#[verifier::external_body]
fn redis_error_text(e: &redis::RedisError) -> String {
    e.to_string()
}

/// A handle on the stream service: a Redis client for a URL that parsed.
/// Connecting and sending are done by the caller through [`RedisStream::client`].
pub struct RedisStream {
    client: redis::Client,
    url: Ghost<Seq<char>>,
}

/// A group read: as `consumer` of `group`, take up to `count` messages of
/// `stream` that were never delivered (from id `from_id`, ">"), waiting
/// `block_ms` ms for them (0: until one comes).
pub struct ReadRequest {
    pub stream: String,
    pub group: String,
    pub consumer: String,
    pub count: usize,
    pub block_ms: usize,
    pub from_id: String,
}

impl View for ReadRequest {
    type V = (Seq<char>, Seq<char>, Seq<char>, usize, usize, Seq<char>);

    open spec fn view(&self) -> (Seq<char>, Seq<char>, Seq<char>, usize, usize, Seq<char>) {
        (self.stream@, self.group@, self.consumer@, self.count, self.block_ms, self.from_id@)
    }
}

/// A request to create consumer group `group` on `stream`, delivering
/// entries added after `start_id` (`XGROUP CREATE stream group start_id`).
pub struct GroupRequest {
    pub stream: String,
    pub group: String,
    pub start_id: String,
}

impl View for GroupRequest {
    type V = (Seq<char>, Seq<char>, Seq<char>);

    open spec fn view(&self) -> (Seq<char>, Seq<char>, Seq<char>) {
        (self.stream@, self.group@, self.start_id@)
    }
}

/// The next thing a stream operation does, or how it ended.
pub enum StreamAction {
    /// Append an entry with these fields to the stream (`XADD stream * ...`).
    Append { stream: String, fields: Vec<(String, String)> },
    /// Delete the entry with this id from the stream (`XDEL`).
    Delete { stream: String, id: String },
    /// The operation is over, with this outcome.
    Finish(Result<(), Error>),
}

/// A [`StreamAction`] as plain values.
pub enum StreamActionView {
    Append { stream: Seq<char>, fields: Seq<(Seq<char>, Seq<char>)> },
    Delete { stream: Seq<char>, id: Seq<char> },
    Finish(Result<(), (ErrorKind, Seq<char>)>),
}

impl View for StreamAction {
    type V = StreamActionView;

    open spec fn view(&self) -> StreamActionView {
        match self {
            StreamAction::Append { stream, fields } => StreamActionView::Append {
                stream: stream@,
                fields: fields_view(fields@),
            },
            StreamAction::Delete { stream, id } => StreamActionView::Delete { stream: stream@, id: id@ },
            StreamAction::Finish(Ok(())) => StreamActionView::Finish(Ok(())),
            StreamAction::Finish(Err(e)) => StreamActionView::Finish(Err(e@)),
        }
    }
}

/// A command outcome that carries text, as plain values.
pub open spec fn text_outcome(r: Result<String, String>) -> Result<Seq<char>, Seq<char>> {
    match r {
        Ok(t) => Ok(t@),
        Err(c) => Err(c@),
    }
}

/// A command outcome without a value, as plain values.
pub open spec fn unit_outcome(r: Result<(), String>) -> Result<(), Seq<char>> {
    match r {
        Ok(()) => Ok(()),
        Err(c) => Err(c@),
    }
}

/// Creating a stream starts by appending the entry "stream <name> created".
pub open spec fn create_start_view(stream: Seq<char>) -> StreamActionView {
    StreamActionView::Append { stream, fields: entry_fields_view(creation_text(stream)) }
}

/// After that append: delete the entry it added (its id), or end with
/// `AddStreamMessage` where it failed.
pub open spec fn create_after_append_view(stream: Seq<char>, appended: Result<Seq<char>, Seq<char>>) -> StreamActionView {
    match appended {
        Ok(id) => StreamActionView::Delete { stream, id },
        Err(c) => StreamActionView::Finish(Err((ErrorKind::AddStreamMessage, c))),
    }
}

/// After the delete: done, or end with `DeleteStreamMessage` where it failed.
pub open spec fn create_after_delete_view(deleted: Result<(), Seq<char>>) -> StreamActionView {
    match deleted {
        Ok(()) => StreamActionView::Finish(Ok(())),
        Err(c) => StreamActionView::Finish(Err((ErrorKind::DeleteStreamMessage, c))),
    }
}

/// Adding a message starts from its JSON text: append the entry that
/// carries it, or end with `Serialization` where it could not be written.
pub open spec fn add_start_view(stream: Seq<char>, serialized: Result<Seq<char>, Seq<char>>) -> StreamActionView {
    match serialized {
        Ok(json) => StreamActionView::Append { stream, fields: entry_fields_view(json) },
        Err(c) => StreamActionView::Finish(Err((ErrorKind::Serialization, c))),
    }
}

/// After the append: done, or end with `AddStreamMessage` where it failed.
pub open spec fn add_after_append_view(appended: Result<Seq<char>, Seq<char>>) -> StreamActionView {
    match appended {
        Ok(_) => StreamActionView::Finish(Ok(())),
        Err(c) => StreamActionView::Finish(Err((ErrorKind::AddStreamMessage, c))),
    }
}

impl RedisStream {
    /// The client this handle holds.
    pub closed spec fn spec_client(&self) -> redis::Client {
        self.client
    }

    /// The Redis URL the client was opened for.
    pub closed spec fn url(&self) -> Seq<char> {
        self.url@
    }

    /// A handle from the outcome of opening a client: the handle where it
    /// opened, else `RedisConnection` with the text of the failure.
    pub fn from_opened(opened: Result<RedisStream, redis::RedisError>) -> (r: Result<RedisStream, Error>)
        ensures
            r is Ok == opened is Ok,
            r matches Ok(s) ==> opened matches Ok(o) && s == o,
            r matches Err(e) ==> e@.0 == ErrorKind::RedisConnection,
    {
        match opened {
            Ok(stream) => Ok(stream),
            Err(e) => Err(Error::RedisConnection(redis_error_text(&e))),
        }
    }

    /// Opens a client for the configured Redis URL. Fails with
    /// `RedisConnection` exactly when the URL is not accepted; the handle
    /// returned is for the configured URL.
    pub fn new(config: RedisConfig) -> (r: Result<RedisStream, Error>)
        ensures
            r is Ok == redis_url_accepted(config@),
            r matches Ok(s) ==> s.url() == config@,
            r matches Err(e) ==> e@.0 == ErrorKind::RedisConnection,
    {
        let opened = open_client(config.redis_connection_string.as_str());
        RedisStream::from_opened(opened)
    }

    /// The group read of `read`: as `consumer` of `group`, up to `count`
    /// never-delivered messages of `stream` (from id ">"), waiting until one
    /// comes (block 0).
    pub fn read_request(stream: &str, group: &str, consumer: &str, count: usize) -> (r: ReadRequest)
        ensures
            r@ == (stream@, group@, consumer@, count, 0usize, ">"@),
    {
        ReadRequest {
            stream: stream.to_owned(),
            group: group.to_owned(),
            consumer: consumer.to_owned(),
            count,
            block_ms: 0,
            from_id: ">".to_owned(),
        }
    }

    /// The request of `create_group`: create `group` on `stream`, delivering
    /// only entries added from now on (start id "$").
    pub fn create_group_request(stream: &str, group: &str) -> (r: GroupRequest)
        ensures
            r@ == (stream@, group@, "$"@),
    {
        GroupRequest { stream: stream.to_owned(), group: group.to_owned(), start_id: "$".to_owned() }
    }

    /// The client, to connect through.
    pub fn client(&self) -> (c: &redis::Client)
        ensures
            *c == self.spec_client(),
    {
        &self.client
    }

    /// First step of creating `stream`: append "stream <name> created".
    pub fn create_stream_start(stream: &str) -> (a: StreamAction)
        ensures
            a@ == create_start_view(stream@),
    {
        StreamAction::Append {
            stream: stream.to_owned(),
            fields: entry_fields(creation_message(stream)),
        }
    }

    /// Step of creating `stream` once the append is answered (with the new
    /// entry's id, or the text of its failure).
    pub fn create_stream_after_append(stream: &str, appended: Result<String, String>) -> (a: StreamAction)
        ensures
            a@ == create_after_append_view(stream@, text_outcome(appended)),
    {
        match appended {
            Ok(id) => StreamAction::Delete { stream: stream.to_owned(), id },
            Err(c) => StreamAction::Finish(Err(command_failed(StreamCommand::Append, c))),
        }
    }

    /// Last step of creating a stream, once the delete is answered.
    pub fn create_stream_after_delete(deleted: Result<(), String>) -> (a: StreamAction)
        ensures
            a@ == create_after_delete_view(unit_outcome(deleted)),
    {
        match deleted {
            Ok(()) => StreamAction::Finish(Ok(())),
            Err(c) => StreamAction::Finish(Err(command_failed(StreamCommand::Delete, c))),
        }
    }

    /// First step of adding a message to `stream`, given its JSON text or
    /// the text of why it could not be serialised.
    pub fn add_start(stream: &str, serialized: Result<String, String>) -> (a: StreamAction)
        ensures
            a@ == add_start_view(stream@, text_outcome(serialized)),
    {
        match serialized {
            Ok(json) => StreamAction::Append { stream: stream.to_owned(), fields: entry_fields(json) },
            Err(c) => StreamAction::Finish(Err(Error::new(ErrorKind::Serialization, c))),
        }
    }

    /// Last step of adding a message, once the append is answered.
    pub fn add_after_append(appended: Result<String, String>) -> (a: StreamAction)
        ensures
            a@ == add_after_append_view(text_outcome(appended)),
    {
        match appended {
            Ok(_) => StreamAction::Finish(Ok(())),
            Err(c) => StreamAction::Finish(Err(command_failed(StreamCommand::Append, c))),
        }
    }

    /// The messages a group read gives, from the read's answer: its failure
    /// is `ReadStreamMessage`; a reply with no stream gives no message;
    /// else the messages of the first stream, as [`convert_from_redis`] reads them.
    pub fn read_outcome(read: Result<ReadReply, String>) -> (r: Result<Vec<StreamResult<String>>, Error>)
        requires
            read matches Ok(reply) ==> (reply.keys@.len() > 0 ==> all_have_messages(reply.keys@[0].ids@)),
        ensures
            match read {
                Ok(reply) => {
                    &&& read_outcome_view(r) == read_reply_messages(reply)
                    &&& r matches Err(e) ==> e@.0 == ErrorKind::Parsing
                },
                Err(c) => r matches Err(e) && e@ == (ErrorKind::ReadStreamMessage, c@),
            },
    {
        match read {
            Err(c) => Err(command_failed(StreamCommand::Read, c)),
            Ok(reply) => {
                if reply.keys.len() == 0 {
                    let none: Vec<StreamResult<String>> = Vec::new();
                    assert(results_view(none@) =~= Seq::empty());
                    Ok(none)
                } else {
                    convert_from_redis(&reply)
                }
            },
        }
    }

    /// The pending list, from the `XPENDING` answer: its failure is
    /// `PendingStreamMessage`, else the list the reply describes.
    pub fn pending_outcome(reply: Result<Vec<Vec<(String, String, i64, i64)>>, String>) -> (r: Result<Vec<StreamPendingResult>, Error>)
        ensures
            match reply {
                Ok(rows) => r matches Ok(v) && v@.map_values(|p: StreamPendingResult| p@) == pending_view(rows@),
                Err(c) => r matches Err(e) && e@ == (ErrorKind::PendingStreamMessage, c@),
            },
    {
        match reply {
            Ok(rows) => Ok(pending_from_reply(&rows)),
            Err(c) => Err(command_failed(StreamCommand::Pending, c)),
        }
    }

    /// The claimed messages (data still as JSON text), from the
    /// `XAUTOCLAIM` answer: its failure is `ClaimStreamMessage`, else the
    /// messages the reply hands over.
    pub fn auto_claim_outcome(reply: Result<Vec<ClaimReply>, String>) -> (r: Result<Vec<StreamResult<String>>, Error>)
        requires
            reply matches Ok(rows) ==> rows@.len() > 0,
        ensures
            match reply {
                Ok(rows) => r matches Ok(v) && results_view(v@) == claimed_messages(rows@),
                Err(c) => r matches Err(e) && e@ == (failure_kind(StreamCommand::AutoClaim), c@),
            },
    {
        match reply {
            Ok(rows) => Ok(claimed_from_reply(&rows)),
            Err(c) => Err(command_failed(StreamCommand::AutoClaim, c)),
        }
    }
}

} // verus!
