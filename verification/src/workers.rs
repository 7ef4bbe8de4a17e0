use vstd::prelude::*;
use crate::commands::{args_view, auto_claim_command, auto_claim_command_view, CommandArg};
use crate::errors::Error;
use crate::redis_stream::{ReadRequest, RedisStream};
use crate::schemas::{ids_of, StreamResult};
use crate::settings::RedisConfig;

verus! {

/// The stream the service uses.
pub open spec fn service_stream() -> Seq<char> {
    "stream"@
}

/// The consumer group the service uses.
pub open spec fn service_group() -> Seq<char> {
    "group"@
}

/// Seconds a claimer waits before each attempt to claim idle messages.
pub const CLAIM_INTERVAL_SECS: u64 = 3;

/// Milliseconds a message must have been idle before a claimer takes it over.
pub const CLAIM_MIN_IDLE_MS: usize = 3000;

/// How many messages a claimer or an extractor takes at a time.
pub const BATCH_SIZE: usize = 1;

/// A request to acknowledge the entry `id` of `stream` for `group` (`XACK`).
pub struct AckRequest {
    pub stream: String,
    pub group: String,
    pub id: String,
}

impl View for AckRequest {
    type V = (Seq<char>, Seq<char>, Seq<char>);

    open spec fn view(&self) -> (Seq<char>, Seq<char>, Seq<char>) {
        (self.stream@, self.group@, self.id@)
    }
}

/// The request to acknowledge `id` in the service's stream and group.
pub open spec fn service_ack(id: Seq<char>) -> (Seq<char>, Seq<char>, Seq<char>) {
    (service_stream(), service_group(), id)
}

/// Acknowledgements as plain values.
pub open spec fn acks_view(acks: Seq<AckRequest>) -> Seq<(Seq<char>, Seq<char>, Seq<char>)> {
    acks.map_values(|a: AckRequest| a@)
}

/// What a claimer acknowledges after an attempt: nothing where it failed
/// (`None`), else each message claimed (its id), in order.
pub open spec fn claim_acks(claimed: Option<Seq<Seq<char>>>) -> Seq<(Seq<char>, Seq<char>, Seq<char>)> {
    match claimed {
        None => Seq::empty(),
        Some(ids) => ids.map_values(|id: Seq<char>| service_ack(id)),
    }
}

/// The ids an attempt's outcome hands over, where it succeeded.
pub open spec fn claimed_ids<T>(claimed: Result<Vec<StreamResult<T>>, Error>) -> Option<Seq<Seq<char>>> {
    match claimed {
        Ok(v) => Some(ids_of(v@)),
        Err(_) => None,
    }
}

/// What an extractor acknowledges after a read: the first message read,
/// where the read succeeded (`Some`) with at least one; nothing otherwise.
pub open spec fn read_ack(read: Option<Seq<Seq<char>>>) -> Option<(Seq<char>, Seq<char>, Seq<char>)> {
    match read {
        Some(ids) => if ids.len() > 0 {
            Some(service_ack(ids[0]))
        } else {
            None
        },
        None => None,
    }
}

/// An optional acknowledgement as a plain value.
pub open spec fn opt_ack_view(a: Option<AckRequest>) -> Option<(Seq<char>, Seq<char>, Seq<char>)> {
    match a {
        Some(a) => Some(a@),
        None => None,
    }
}

fn ack_of(id: &String) -> (a: AckRequest)
    ensures
        a@ == service_ack(id@),
{
    AckRequest { stream: "stream".to_owned(), group: "group".to_owned(), id: id.clone() }
}

/// A worker that keeps taking over messages that other consumers left idle,
/// and acknowledges them.
pub struct ClaimerWorker {
    pub config: RedisConfig,
    pub stream: String,
    pub group: String,
    pub consumer: String,
    pub min_idle: usize,
    pub start_id: String,
    pub count: usize,
}

impl ClaimerWorker {
    /// The claimer of consumer `consumer`: it claims, from the start of the
    /// service's stream and group, one message at a time that has been idle
    /// for at least 3000 ms.
    pub fn new(config: RedisConfig, consumer: String) -> (w: ClaimerWorker)
        ensures
            w.config == config,
            w.stream@ == service_stream(),
            w.group@ == service_group(),
            w.consumer@ == consumer@,
            w.min_idle == CLAIM_MIN_IDLE_MS,
            w.start_id@ == "0-0"@,
            w.count == BATCH_SIZE,
    {
        ClaimerWorker {
            config,
            stream: "stream".to_owned(),
            group: "group".to_owned(),
            consumer,
            min_idle: CLAIM_MIN_IDLE_MS,
            start_id: "0-0".to_owned(),
            count: BATCH_SIZE,
        }
    }

    /// The `XAUTOCLAIM` command of one attempt, from the worker's settings.
    pub fn claim_command(&self) -> (r: Vec<CommandArg>)
        ensures
            args_view(r@) == auto_claim_command_view(
                self.stream@,
                self.group@,
                self.consumer@,
                self.min_idle,
                self.start_id@,
                self.count,
            ),
    {
        auto_claim_command(
            self.stream.as_str(),
            self.group.as_str(),
            self.consumer.as_str(),
            self.min_idle,
            self.start_id.as_str(),
            self.count,
        )
    }

    /// What an attempt acknowledges: where claiming failed, nothing; else
    /// every message claimed, in order, in the service's stream and group.
    pub fn acks_after_claim<T>(&self, claimed: &Result<Vec<StreamResult<T>>, Error>) -> (r: Vec<AckRequest>)
        ensures
            acks_view(r@) == claim_acks(claimed_ids(*claimed)),
    {
        let mut acks: Vec<AckRequest> = Vec::new();
        match claimed {
            Err(_) => {
                assert(acks_view(acks@) =~= claim_acks(claimed_ids(*claimed)));
                acks
            },
            Ok(v) => {
                let mut i: usize = 0;
                while i < v.len()
                    invariant
                        i <= v@.len(),
                        acks@.len() == i,
                        forall|j: int| 0 <= j < i ==> (#[trigger] acks@[j])@ == service_ack(v@[j].id@),
                    decreases v@.len() - i,
                {
                    acks.push(ack_of(&v[i].id));
                    i = i + 1;
                }
                assert(acks_view(acks@) =~= claim_acks(claimed_ids(*claimed)));
                acks
            },
        }
    }
}

/// A worker that keeps reading new messages of the service's group and
/// acknowledges each one it processes.
pub struct ExtractorWorker {
    pub stream: RedisStream,
}

impl ExtractorWorker {
    /// The read of one round: as consumer "consumer", one new message of the
    /// service's stream and group, waiting until one comes.
    pub fn read_request(&self) -> (r: ReadRequest)
        ensures
            r@ == (service_stream(), service_group(), "consumer"@, BATCH_SIZE, 0usize, ">"@),
    {
        RedisStream::read_request("stream", "group", "consumer", BATCH_SIZE)
    }

    /// What a round acknowledges: the first message read, where the read
    /// succeeded with at least one; nothing otherwise.
    pub fn ack_after_read<T>(&self, read: &Result<Vec<StreamResult<T>>, Error>) -> (r: Option<AckRequest>)
        ensures
            opt_ack_view(r) == read_ack(claimed_ids(*read)),
    {
        match read {
            Ok(v) => {
                if v.len() == 0 {
                    None
                } else {
                    Some(ack_of(&v[0].id))
                }
            },
            Err(_) => None,
        }
    }
}

} // verus!
