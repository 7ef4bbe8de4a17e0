use vstd::prelude::*;
use vstd::pervasive::unreached;
use crate::errors::{Error, ErrorKind};
use crate::schemas::{ids_of, StreamPendingResult, StreamResult};

verus! {

/// Name of the entry field that holds a message's JSON payload.
pub open spec fn message_field() -> Seq<char> {
    "message"@
}

/// An entry of a stream as a group read returns it: its id and its fields,
/// each with the text of its value, or the reason its value is no text.
pub struct ReadEntry {
    pub id: String,
    pub fields: Vec<(String, Result<String, String>)>,
}

/// The entries a group read returned for one stream.
pub struct ReadKey {
    pub key: String,
    pub ids: Vec<ReadEntry>,
}

/// What a group read (`XREADGROUP`) returned: one element per stream read.
pub struct ReadReply {
    pub keys: Vec<ReadKey>,
}

/// An entry handed over by `XAUTOCLAIM`: its id and its text fields.
pub struct ClaimedEntry {
    pub id: String,
    pub fields: Vec<(String, String)>,
}

/// One element of an `XAUTOCLAIM` reply: the id to continue scanning from,
/// the claimed entries (in batches), and ids of entries no longer in the stream.
pub struct ClaimReply {
    pub next_start_id: String,
    pub claimed: Vec<Vec<ClaimedEntry>>,
    pub deleted_ids: Vec<String>,
}

/// `i` is the first position in `fields` whose name is `name`.
pub open spec fn is_first_field<V>(fields: Seq<(String, V)>, name: Seq<char>, i: int) -> bool {
    &&& 0 <= i < fields.len()
    &&& fields[i].0@ == name
    &&& forall|j: int| 0 <= j < i ==> fields[j].0@ != name
}

/// Some field of `fields` is named `name`.
pub open spec fn has_field<V>(fields: Seq<(String, V)>, name: Seq<char>) -> bool {
    exists|i: int| 0 <= i < fields.len() && fields[i].0@ == name
}

/// The first position whose name is `name` (meaningful where `has_field`).
pub open spec fn first_field<V>(fields: Seq<(String, V)>, name: Seq<char>) -> int {
    choose|i: int| is_first_field(fields, name, i)
}

/// Where a field is named `name`, one of them is the first, and the first is unique.
pub proof fn lemma_first_field<V>(fields: Seq<(String, V)>, name: Seq<char>)
    requires
        has_field(fields, name),
    ensures
        is_first_field(fields, name, first_field(fields, name)),
        forall|i: int| is_first_field(fields, name, i) ==> i == first_field(fields, name),
{
    let w = choose|i: int| 0 <= i < fields.len() && fields[i].0@ == name;
    lemma_first_field_below(fields, name, w);
    let f = first_field(fields, name);
    assert forall|i: int| is_first_field(fields, name, i) implies i == f by {
        if i < f {
            assert(fields[i].0@ == name);
        } else if f < i {
            assert(fields[f].0@ == name);
        }
    }
}

proof fn lemma_first_field_below<V>(fields: Seq<(String, V)>, name: Seq<char>, w: int)
    requires
        0 <= w < fields.len(),
        fields[w].0@ == name,
    ensures
        exists|i: int| is_first_field(fields, name, i),
    decreases w,
{
    if forall|j: int| 0 <= j < w ==> fields[j].0@ != name {
        assert(is_first_field(fields, name, w));
    } else {
        let j = choose|j: int| 0 <= j < w && fields[j].0@ == name;
        lemma_first_field_below(fields, name, j);
    }
}

/// The position of the first field of `fields` named `name`, if there is one.
pub fn find_field<V>(fields: &Vec<(String, V)>, name: &String) -> (r: Option<usize>)
    ensures
        match r {
            Some(i) => is_first_field(fields@, name@, i as int),
            None => !has_field(fields@, name@),
        },
{
    let mut i: usize = 0;
    while i < fields.len()
        invariant
            i <= fields@.len(),
            forall|j: int| 0 <= j < i ==> fields@[j].0@ != name@,
        decreases fields@.len() - i,
    {
        if fields[i].0 == *name {
            return Some(i);
        }
        i = i + 1;
    }
    None
}

/// The text of a read entry's message field, or why its value is no text.
pub open spec fn read_text(e: ReadEntry) -> Result<Seq<char>, Seq<char>> {
    match e.fields@[first_field(e.fields@, message_field())].1 {
        Ok(t) => Ok(t@),
        Err(c) => Err(c@),
    }
}

/// Every entry read carries a message field.
pub open spec fn all_have_messages(entries: Seq<ReadEntry>) -> bool {
    forall|i: int| 0 <= i < entries.len() ==> has_field(#[trigger] entries[i].fields@, message_field())
}

/// `k` is the first position of `s` that holds an error.
pub open spec fn is_first_err<A, B>(s: Seq<Result<A, B>>, k: int) -> bool {
    &&& 0 <= k < s.len()
    &&& s[k] is Err
    &&& forall|i: int| 0 <= i < k ==> s[i] is Ok
}

/// Every element of `s` is `Ok`.
pub open spec fn all_ok<A, B>(s: Seq<Result<A, B>>) -> bool {
    forall|i: int| 0 <= i < s.len() ==> s[i] is Ok
}

/// The first position of `s` that holds an error (meaningful where not `all_ok`).
pub open spec fn first_err<A, B>(s: Seq<Result<A, B>>) -> int {
    choose|k: int| is_first_err(s, k)
}

/// Where `k` is the first error, it is what `first_err` picks.
pub proof fn lemma_first_err<A, B>(s: Seq<Result<A, B>>, k: int)
    requires
        is_first_err(s, k),
    ensures
        first_err(s) == k,
{
    let f = first_err(s);
    assert(is_first_err(s, f));
    if f < k {
        assert(s[f] is Ok);
    } else if k < f {
        assert(s[k] is Ok);
    }
}

/// The texts of the message fields of `entries`, in order.
pub open spec fn read_texts(entries: Seq<ReadEntry>) -> Seq<Result<Seq<char>, Seq<char>>> {
    entries.map_values(|e: ReadEntry| read_text(e))
}

/// What a read of `entries` gives: each entry's id with its message text,
/// in order, or the cause of the first message that is no text.
pub open spec fn read_messages(entries: Seq<ReadEntry>) -> Result<Seq<(Seq<char>, Seq<char>)>, Seq<char>> {
    let texts = read_texts(entries);
    if all_ok(texts) {
        Ok(Seq::new(entries.len(), |i: int| (entries[i].id@, texts[i]->Ok_0)))
    } else {
        Err(texts[first_err(texts)]->Err_0)
    }
}

/// What a group read gives: nothing where no stream was returned, else the
/// messages of the first stream returned.
pub open spec fn read_reply_messages(reply: ReadReply) -> Result<Seq<(Seq<char>, Seq<char>)>, Seq<char>> {
    if reply.keys@.len() == 0 {
        Ok(Seq::empty())
    } else {
        read_messages(reply.keys@[0].ids@)
    }
}

/// The messages of a read as results, each with its view.
pub open spec fn results_view(v: Seq<StreamResult<String>>) -> Seq<(Seq<char>, Seq<char>)> {
    v.map_values(|r: StreamResult<String>| r@)
}

/// A read's outcome over the views of its messages and of its error cause.
pub open spec fn read_outcome_view(r: Result<Vec<StreamResult<String>>, Error>) -> Result<Seq<(Seq<char>, Seq<char>)>, Seq<char>> {
    match r {
        Ok(v) => Ok(results_view(v@)),
        Err(e) => Err(e@.1),
    }
}

impl ReadReply {
    /// Whether every entry of the first stream returned has a message field
    /// (vacuously true where no stream was returned).
    pub fn has_messages(&self) -> (b: bool)
        ensures
            b == (self.keys@.len() > 0 ==> all_have_messages(self.keys@[0].ids@)),
    {
        if self.keys.len() == 0 {
            return true;
        }
        let entries = &self.keys[0].ids;
        let name = "message".to_owned();
        let mut i: usize = 0;
        while i < entries.len()
            invariant
                i <= entries@.len(),
                self.keys@.len() > 0,
                entries@ == self.keys@[0].ids@,
                name@ == message_field(),
                forall|j: int| 0 <= j < i ==> has_field(#[trigger] entries@[j].fields@, message_field()),
            decreases entries@.len() - i,
        {
            if find_field(&entries[i].fields, &name).is_none() {
                assert(!has_field(self.keys@[0].ids@[i as int].fields@, message_field()));
                return false;
            }
            i = i + 1;
        }
        true
    }
}

/// Turns the entries of the first stream of a group read into messages:
/// each entry's id with the text of its message field, in order; the first
/// message field that holds no text fails the whole read with `Parsing`.
pub fn convert_from_redis(reply: &ReadReply) -> (r: Result<Vec<StreamResult<String>>, Error>)
    requires
        reply.keys@.len() > 0,
        all_have_messages(reply.keys@[0].ids@),
    ensures
        read_outcome_view(r) == read_messages(reply.keys@[0].ids@),
        r matches Err(e) ==> e@.0 == ErrorKind::Parsing,
{
    let entries = &reply.keys[0].ids;
    let ghost texts = read_texts(entries@);
    let name = "message".to_owned();
    let mut payloads: Vec<StreamResult<String>> = Vec::new();
    let mut i: usize = 0;
    while i < entries.len()
        invariant
            i <= entries@.len(),
            reply.keys@.len() > 0,
            entries@ == reply.keys@[0].ids@,
            name@ == message_field(),
            texts == read_texts(entries@),
            all_have_messages(entries@),
            payloads@.len() == i,
            forall|j: int| 0 <= j < i ==> texts[j] is Ok,
            forall|j: int| 0 <= j < i ==> (#[trigger] payloads@[j])@ == (entries@[j].id@, texts[j]->Ok_0),
        decreases entries@.len() - i,
    {
        let entry = &entries[i];
        assert(has_field(entries@[i as int].fields@, message_field()));
        proof {
            lemma_first_field(entry.fields@, message_field());
        }
        let pos = find_field(&entry.fields, &name);
        let pos = match pos {
            Some(p) => p,
            None => unreached(),
        };
        match &entry.fields[pos].1 {
            Ok(text) => {
                proof {
                    assert(first_field(entry.fields@, message_field()) == pos as int);
                    assert(texts[i as int] == read_text(entries@[i as int]));
                }
                payloads.push(StreamResult { id: entry.id.clone(), data: text.clone() });
            },
            Err(cause) => {
                proof {
                    assert(first_field(entry.fields@, message_field()) == pos as int);
                    assert(texts[i as int] == read_text(entries@[i as int]));
                    assert(texts[i as int] == Err::<Seq<char>, Seq<char>>(cause@));
                    assert(!all_ok(texts));
                    lemma_first_err(texts, i as int);
                }
                return Err(Error::Parsing(cause.clone()));
            },
        }
        i = i + 1;
    }
    assert(results_view(payloads@) =~= Seq::new(entries@.len(), |j: int| (entries@[j].id@, texts[j]->Ok_0)));
    Ok(payloads)
}


/// The text of a claimed entry's message field, or the empty text where the
/// entry has none.
pub open spec fn claimed_text(e: ClaimedEntry) -> Seq<char> {
    if has_field(e.fields@, message_field()) {
        e.fields@[first_field(e.fields@, message_field())].1@
    } else {
        Seq::empty()
    }
}

/// A claimed entry as a message: its id with its message text.
pub open spec fn claimed_message(e: ClaimedEntry) -> (Seq<char>, Seq<char>) {
    (e.id@, claimed_text(e))
}

/// The messages of one batch of claimed entries, in order.
pub open spec fn batch_messages(batch: Vec<ClaimedEntry>) -> Seq<(Seq<char>, Seq<char>)> {
    batch@.map_values(|e: ClaimedEntry| claimed_message(e))
}

/// The messages of all batches of the first element of an `XAUTOCLAIM`
/// reply, batch after batch, each batch in order.
pub open spec fn claimed_messages(reply: Seq<ClaimReply>) -> Seq<(Seq<char>, Seq<char>)> {
    reply[0].claimed@.map_values(|b: Vec<ClaimedEntry>| batch_messages(b)).flatten()
}

/// The messages an `XAUTOCLAIM` reply hands over: from its first element,
/// every claimed entry, batch after batch and in order, as its id with the
/// text of its message field (the empty text where it has none).
pub fn claimed_from_reply(reply: &Vec<ClaimReply>) -> (r: Vec<StreamResult<String>>)
    requires
        reply@.len() > 0,
    ensures
        results_view(r@) == claimed_messages(reply@),
{
    let batches = &reply[0].claimed;
    let ghost per_batch = batches@.map_values(|b: Vec<ClaimedEntry>| batch_messages(b));
    let name = "message".to_owned();
    let mut out: Vec<StreamResult<String>> = Vec::new();
    let mut i: usize = 0;
    while i < batches.len()
        invariant
            i <= batches@.len(),
            reply@.len() > 0,
            batches@ == reply@[0].claimed@,
            name@ == message_field(),
            per_batch == batches@.map_values(|b: Vec<ClaimedEntry>| batch_messages(b)),
            results_view(out@) == per_batch.take(i as int).flatten(),
        decreases batches@.len() - i,
    {
        let batch = &batches[i];
        let ghost before = results_view(out@);
        let mut j: usize = 0;
        while j < batch.len()
            invariant
                j <= batch@.len(),
                name@ == message_field(),
                results_view(out@) == before + batch_messages(*batch).take(j as int),
            decreases batch@.len() - j,
        {
            let entry = &batch[j];
            let text = match find_field(&entry.fields, &name) {
                Some(p) => {
                    proof {
                        lemma_first_field(entry.fields@, message_field());
                        assert(first_field(entry.fields@, message_field()) == p as int);
                    }
                    entry.fields[p].1.clone()
                },
                None => String::new(),
            };
            assert(text@ == claimed_text(*entry));
            let ghost old_out = out@;
            out.push(StreamResult { id: entry.id.clone(), data: text });
            assert(results_view(out@) =~= results_view(old_out).push(claimed_message(batch@[j as int])));
            assert(batch_messages(*batch).take(j + 1) =~= batch_messages(*batch).take(j as int).push(
                claimed_message(batch@[j as int]),
            ));
            assert(results_view(out@) =~= before + batch_messages(*batch).take(j + 1));
            j = j + 1;
        }
        proof {
            assert(batch_messages(*batch).take(batch@.len() as int) =~= batch_messages(*batch));
            assert(per_batch.take(i + 1) =~= per_batch.take(i as int).push(per_batch[i as int]));
            per_batch.take(i as int).lemma_flatten_push(per_batch[i as int]);
        }
        i = i + 1;
    }
    assert(per_batch.take(batches@.len() as int) =~= per_batch);
    out
}

/// The pending list an `XPENDING` reply describes: empty where the reply is
/// empty, else its first element, entry by entry, with idle time and
/// delivery count converted from `i64` to `usize` as `as` converts them.
pub open spec fn pending_view(reply: Seq<Vec<(String, String, i64, i64)>>) -> Seq<(Seq<char>, Seq<char>, usize, usize)> {
    if reply.len() == 0 {
        Seq::empty()
    } else {
        reply[0]@.map_values(
            |p: (String, String, i64, i64)| (p.0@, p.1@, p.2 as usize, p.3 as usize),
        )
    }
}

/// Turns an `XPENDING` reply (id, consumer, idle ms, delivery count per
/// entry) into the pending list it describes.
pub fn pending_from_reply(reply: &Vec<Vec<(String, String, i64, i64)>>) -> (r: Vec<StreamPendingResult>)
    ensures
        r@.map_values(|p: StreamPendingResult| p@) == pending_view(reply@),
{
    let mut response: Vec<StreamPendingResult> = Vec::new();
    if reply.len() == 0 {
        assert(response@.map_values(|p: StreamPendingResult| p@) =~= pending_view(reply@));
        return response;
    }
    let entries = &reply[0];
    let mut i: usize = 0;
    while i < entries.len()
        invariant
            i <= entries@.len(),
            reply@.len() > 0,
            entries@ == reply@[0]@,
            response@.len() == i,
            forall|j: int| 0 <= j < i ==> (#[trigger] response@[j])@ == (
                entries@[j].0@,
                entries@[j].1@,
                entries@[j].2 as usize,
                entries@[j].3 as usize,
            ),
        decreases entries@.len() - i,
    {
        let entry = &entries[i];
        #[verifier::truncate]
        let idle: usize = entry.2 as usize;
        #[verifier::truncate]
        let delivery_count: usize = entry.3 as usize;
        response.push(StreamPendingResult {
            id: entry.0.clone(),
            consumer: entry.1.clone(),
            idle,
            delivery_count,
        });
        i = i + 1;
    }
    assert(response@.map_values(|p: StreamPendingResult| p@) =~= pending_view(reply@));
    response
}

/// Parse outcomes of messages as plain values: each id with its parsed data
/// or the text of why its data did not parse.
pub open spec fn parse_outcomes<T>(items: Seq<StreamResult<Result<T, String>>>) -> Seq<Result<T, Seq<char>>> {
    items.map_values(
        |it: StreamResult<Result<T, String>>|
            match it.data {
                Ok(d) => Ok(d),
                Err(c) => Err(c@),
            },
    )
}

/// Gathers messages whose data were parsed: all of them with their parsed
/// data, in order, where every parse succeeded; else `Parsing` with the
/// cause of the first parse that failed.
pub fn collect_parsed<T>(items: Vec<StreamResult<Result<T, String>>>) -> (r: Result<Vec<StreamResult<T>>, Error>)
    ensures
        ({
            let outcomes = parse_outcomes(items@);
            match r {
                Ok(v) => {
                    &&& all_ok(outcomes)
                    &&& ids_of(v@) == ids_of(items@)
                    &&& v@.len() == items@.len()
                    &&& forall|i: int|
                        0 <= i < items@.len() ==> (#[trigger] v@[i]).id@ == items@[i].id@
                            && items@[i].data == Ok::<T, String>(v@[i].data)
                },
                Err(e) => {
                    &&& !all_ok(outcomes)
                    &&& e@ == (ErrorKind::Parsing, outcomes[first_err(outcomes)]->Err_0)
                },
            }
        }),
{
    let ghost original = items@;
    let ghost outcomes = parse_outcomes(original);
    let count: usize = items.len();
    assert(original.len() == count);
    let mut rest = items;
    let mut out: Vec<StreamResult<T>> = Vec::new();
    let mut i: usize = 0;
    while rest.len() > 0
        invariant
            outcomes == parse_outcomes(original),
            original == items@,
            original.len() <= usize::MAX,
            i + rest@.len() == original.len(),
            rest@ == original.subrange(i as int, original.len() as int),
            out@.len() == i,
            forall|j: int| 0 <= j < i ==> outcomes[j] is Ok,
            forall|j: int|
                0 <= j < i ==> (#[trigger] out@[j]).id@ == original[j].id@
                    && original[j].data == Ok::<T, String>(out@[j].data),
        decreases rest@.len(),
    {
        let item = rest.remove(0);
        assert(item == original[i as int]);
        match item.data {
            Ok(d) => {
                out.push(StreamResult { id: item.id, data: d });
            },
            Err(cause) => {
                proof {
                    assert(outcomes[i as int] == Err::<T, Seq<char>>(cause@));
                    assert(!(outcomes[i as int] is Ok));
                    assert(!all_ok(outcomes));
                    lemma_first_err(outcomes, i as int);
                }
                return Err(Error::Parsing(cause));
            },
        }
        assert(rest@ =~= original.subrange(i + 1, original.len() as int));
        i = i + 1;
    }
    assert(ids_of(out@) =~= ids_of(original));
    Ok(out)
}

} // verus!
