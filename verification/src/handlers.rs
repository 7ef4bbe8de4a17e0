use vstd::prelude::*;
use crate::errors::{Error, HttpReply, INTERNAL_SERVER_ERROR};
use crate::schemas::BlobPayload;

verus! {

/// HTTP status of a request that succeeded.
pub const OK_STATUS: u16 = 200;

/// The payload the producer endpoint sends to the stream.
pub open spec fn produced_payload() -> (Seq<char>, Seq<char>, Seq<char>) {
    ("http://localhost:9090"@, "localhost"@, "html"@)
}

/// The payload `POST /producer` adds to the service's stream.
pub fn produce_payload() -> (p: BlobPayload)
    ensures
        p@ == produced_payload(),
{
    BlobPayload {
        url: "http://localhost:9090".to_owned(),
        name: "localhost".to_owned(),
        extension: "html".to_owned(),
    }
}

/// The answer of `POST /producer`: 200 and "Message added to stream" where
/// the payload was added; 500 and "Failed to add message to stream" otherwise.
pub fn produce_reply(added: &Result<(), Error>) -> (r: HttpReply)
    ensures
        match added {
            Ok(()) => r@ == (OK_STATUS, "Message added to stream"@),
            Err(_) => r@ == (INTERNAL_SERVER_ERROR, "Failed to add message to stream"@),
        },
{
    match added {
        Ok(()) => HttpReply { status: OK_STATUS, body: "Message added to stream".to_owned() },
        Err(_) => HttpReply {
            status: INTERNAL_SERVER_ERROR,
            body: "Failed to add message to stream".to_owned(),
        },
    }
}

/// The answer of `GET /healthz`: 200 and "OK".
pub fn healthz() -> (r: HttpReply)
    ensures
        r@ == (OK_STATUS, "OK"@),
{
    HttpReply { status: OK_STATUS, body: "OK".to_owned() }
}

} // verus!
