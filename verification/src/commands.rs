use vstd::prelude::*;
use vstd::string::*;
use crate::errors::{Error, ErrorKind};

verus! {

/// One word of a Redis command: a text, or a count written in decimal.
pub enum CommandArg {
    Text(String),
    Count(usize),
}

/// A command word as a plain value.
pub enum CommandArgView {
    Text(Seq<char>),
    Count(usize),
}

impl View for CommandArg {
    type V = CommandArgView;

    open spec fn view(&self) -> CommandArgView {
        match self {
            CommandArg::Text(t) => CommandArgView::Text(t@),
            CommandArg::Count(n) => CommandArgView::Count(*n),
        }
    }
}

/// The words of a command as plain values.
pub open spec fn args_view(args: Seq<CommandArg>) -> Seq<CommandArgView> {
    args.map_values(|a: CommandArg| a@)
}

fn text(s: &str) -> (a: CommandArg)
    ensures
        a@ == CommandArgView::Text(s@),
{
    CommandArg::Text(s.to_owned())
}

fn text_of(s: &String) -> (a: CommandArg)
    ensures
        a@ == CommandArgView::Text(s@),
{
    CommandArg::Text(s.clone())
}

/// The words of the command that lists up to `count` entries of a group's
/// pending list that have been idle for at least `min_idle` ms.
pub open spec fn pending_command_view(stream: Seq<char>, group: Seq<char>, min_idle: usize, count: usize) -> Seq<CommandArgView> {
    seq![
        CommandArgView::Text("XPENDING"@),
        CommandArgView::Text(stream),
        CommandArgView::Text(group),
        CommandArgView::Text("IDLE"@),
        CommandArgView::Count(min_idle),
        CommandArgView::Text("-"@),
        CommandArgView::Text("+"@),
        CommandArgView::Count(count),
    ]
}

/// The words of the command that hands to `consumer` up to `count` entries
/// pending for at least `min_idle` ms, scanning from `start_id`.
pub open spec fn auto_claim_command_view(
    stream: Seq<char>,
    group: Seq<char>,
    consumer: Seq<char>,
    min_idle: usize,
    start_id: Seq<char>,
    count: usize,
) -> Seq<CommandArgView> {
    seq![
        CommandArgView::Text("XAUTOCLAIM"@),
        CommandArgView::Text(stream),
        CommandArgView::Text(group),
        CommandArgView::Text(consumer),
        CommandArgView::Count(min_idle),
        CommandArgView::Text(start_id),
        CommandArgView::Text("COUNT"@),
        CommandArgView::Count(count),
    ]
}

/// `XPENDING stream group IDLE min_idle - + count`.
pub fn pending_command(stream: &str, group: &str, min_idle: usize, count: usize) -> (r: Vec<CommandArg>)
    ensures
        args_view(r@) == pending_command_view(stream@, group@, min_idle, count),
{
    let mut r: Vec<CommandArg> = Vec::new();
    r.push(text("XPENDING"));
    r.push(text(stream));
    r.push(text(group));
    r.push(text("IDLE"));
    r.push(CommandArg::Count(min_idle));
    r.push(text("-"));
    r.push(text("+"));
    r.push(CommandArg::Count(count));
    assert(args_view(r@) =~= pending_command_view(stream@, group@, min_idle, count));
    r
}

/// `XAUTOCLAIM stream group consumer min_idle start_id COUNT count`.
pub fn auto_claim_command(
    stream: &str,
    group: &str,
    consumer: &str,
    min_idle: usize,
    start_id: &str,
    count: usize,
) -> (r: Vec<CommandArg>)
    ensures
        args_view(r@) == auto_claim_command_view(stream@, group@, consumer@, min_idle, start_id@, count),
{
    let mut r: Vec<CommandArg> = Vec::new();
    r.push(text("XAUTOCLAIM"));
    r.push(text(stream));
    r.push(text(group));
    r.push(text(consumer));
    r.push(CommandArg::Count(min_idle));
    r.push(text(start_id));
    r.push(text("COUNT"));
    r.push(CommandArg::Count(count));
    assert(args_view(r@) =~= auto_claim_command_view(stream@, group@, consumer@, min_idle, start_id@, count));
    r
}

/// The fields of a new stream entry that carries `payload`: a single field
/// named "message" holding it.
pub open spec fn entry_fields_view(payload: Seq<char>) -> Seq<(Seq<char>, Seq<char>)> {
    seq![("message"@, payload)]
}

/// Field/value pairs as plain values.
pub open spec fn fields_view(fields: Seq<(String, String)>) -> Seq<(Seq<char>, Seq<char>)> {
    fields.map_values(|f: (String, String)| (f.0@, f.1@))
}

/// The fields of the entry that carries `payload` (the JSON text of a message).
pub fn entry_fields(payload: String) -> (r: Vec<(String, String)>)
    ensures
        fields_view(r@) == entry_fields_view(payload@),
{
    let mut r: Vec<(String, String)> = Vec::new();
    r.push(("message".to_owned(), payload));
    assert(fields_view(r@) =~= entry_fields_view(payload@));
    r
}

/// The text of the entry that marks the creation of `stream`.
pub open spec fn creation_text(stream: Seq<char>) -> Seq<char> {
    "stream "@ + stream + " created"@
}

/// "stream <name> created": the payload written to create a stream.
pub fn creation_message(stream: &str) -> (m: String)
    ensures
        m@ == creation_text(stream@),
{
    let m = String::from_str("stream ");
    let m = m.concat(stream);
    m.concat(" created")
}

/// A command of the stream protocol that can fail, by what it does.
#[derive(Debug, Clone, Copy, PartialEq, Eq, Structural)]
pub enum StreamCommand {
    Append,
    Delete,
    Read,
    Ack,
    Pending,
    AutoClaim,
}

/// The kind of error a failed command is reported as.
pub open spec fn failure_kind(cmd: StreamCommand) -> ErrorKind {
    match cmd {
        StreamCommand::Append => ErrorKind::AddStreamMessage,
        StreamCommand::Delete => ErrorKind::DeleteStreamMessage,
        StreamCommand::Read => ErrorKind::ReadStreamMessage,
        StreamCommand::Ack => ErrorKind::AckStreamMessage,
        StreamCommand::Pending => ErrorKind::PendingStreamMessage,
        StreamCommand::AutoClaim => ErrorKind::ClaimStreamMessage,
    }
}

/// The error a failed command is reported as, with the failure's text as cause.
pub fn command_failed(cmd: StreamCommand, cause: String) -> (e: Error)
    ensures
        e@ == (failure_kind(cmd), cause@),
{
    let kind = match cmd {
        StreamCommand::Append => ErrorKind::AddStreamMessage,
        StreamCommand::Delete => ErrorKind::DeleteStreamMessage,
        StreamCommand::Read => ErrorKind::ReadStreamMessage,
        StreamCommand::Ack => ErrorKind::AckStreamMessage,
        StreamCommand::Pending => ErrorKind::PendingStreamMessage,
        StreamCommand::AutoClaim => ErrorKind::ClaimStreamMessage,
    };
    Error::new(kind, cause)
}

/// A command's outcome as the stream operation reports it: its value where
/// it succeeded, else the error for that command with the failure's text.
pub fn command_outcome<T>(cmd: StreamCommand, outcome: Result<T, String>) -> (r: Result<T, Error>)
    ensures
        match outcome {
            Ok(v) => r == Ok::<T, Error>(v),
            Err(c) => r matches Err(e) && e@ == (failure_kind(cmd), c@),
        },
{
    match outcome {
        Ok(v) => Ok(v),
        Err(c) => Err(command_failed(cmd, c)),
    }
}

} // verus!
