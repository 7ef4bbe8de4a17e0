use vstd::prelude::*;

verus! {

/// The payload the service moves through the stream: where a blob lives and
/// under which name and extension it is stored.
#[derive(Debug, Clone)]
pub struct BlobPayload {
    pub url: String,
    pub name: String,
    pub extension: String,
}

/// One message taken from the stream: its entry id and its data.
#[derive(Debug)]
pub struct StreamResult<T> {
    pub id: String,
    pub data: T,
}

/// One entry of a consumer group's pending list: the entry id, the consumer
/// that holds it, how long (ms) it has been idle and how often it was delivered.
#[derive(Debug)]
pub struct StreamPendingResult {
    pub id: String,
    pub consumer: String,
    pub idle: usize,
    pub delivery_count: usize,
}

impl View for BlobPayload {
    type V = (Seq<char>, Seq<char>, Seq<char>);

    open spec fn view(&self) -> (Seq<char>, Seq<char>, Seq<char>) {
        (self.url@, self.name@, self.extension@)
    }
}

impl<T: View> View for StreamResult<T> {
    type V = (Seq<char>, T::V);

    open spec fn view(&self) -> (Seq<char>, T::V) {
        (self.id@, self.data@)
    }
}

impl View for StreamPendingResult {
    type V = (Seq<char>, Seq<char>, usize, usize);

    open spec fn view(&self) -> (Seq<char>, Seq<char>, usize, usize) {
        (self.id@, self.consumer@, self.idle, self.delivery_count)
    }
}

/// The ids of messages, in order.
pub open spec fn ids_of<T>(v: Seq<StreamResult<T>>) -> Seq<Seq<char>> {
    v.map_values(|r: StreamResult<T>| r.id@)
}

} // verus!
