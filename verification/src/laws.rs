use vstd::prelude::*;
use crate::commands::{
    args_view, auto_claim_command_view, creation_text, entry_fields_view, fields_view,
    pending_command_view, CommandArg, CommandArgView,
};
use crate::errors::Error;
use crate::helpers::{consumer_name, first_digit_run, is_ascii_digit};
use crate::redis_stream::{
    add_after_append_view, add_start_view, create_after_append_view, create_after_delete_view,
    create_start_view, StreamActionView,
};
use crate::replies::{
    claimed_messages, claimed_text, first_field, has_field, is_first_field, lemma_first_field,
    message_field, read_messages, read_reply_messages, read_text, read_texts, all_ok, first_err,
    lemma_first_err, batch_messages, pending_view, results_view, read_outcome_view, ClaimReply,
    ClaimedEntry, ReadEntry, ReadReply,
};
use crate::schemas::StreamResult;
use crate::workers::{acks_view, claim_acks, claimed_ids, read_ack, service_ack, AckRequest};

verus! {

/// Fields of a read entry as plain values.
pub open spec fn read_fields_view(fields: Seq<(String, Result<String, String>)>) -> Seq<(Seq<char>, Result<Seq<char>, Seq<char>>)> {
    fields.map_values(
        |f: (String, Result<String, String>)|
            (f.0@, match f.1 {
                Ok(t) => Ok(t@),
                Err(c) => Err(c@),
            }),
    )
}

/// Fields written as text, as a read returns them when every value is text.
pub open spec fn as_read(fields: Seq<(Seq<char>, Seq<char>)>) -> Seq<(Seq<char>, Result<Seq<char>, Seq<char>>)> {
    fields.map_values(|f: (Seq<char>, Seq<char>)| (f.0, Ok(f.1)))
}

proof fn lemma_written_entry_read(entry: ReadEntry, json: Seq<char>)
    requires
        read_fields_view(entry.fields@) == as_read(entry_fields_view(json)),
    ensures
        has_field(entry.fields@, message_field()),
        read_text(entry) == Ok::<Seq<char>, Seq<char>>(json),
{
    let fields = entry.fields@;
    assert(read_fields_view(fields).len() == 1);
    assert(read_fields_view(fields)[0] == as_read(entry_fields_view(json))[0]);
    assert(fields[0].0@ == message_field());
    assert(is_first_field(fields, message_field(), 0));
    lemma_first_field(fields, message_field());
    assert(first_field(fields, message_field()) == 0);
}

/// A read gives back what an add wrote: adding `json` appends an entry
/// whose only field is "message" holding `json`, and reading an entry that
/// holds those fields gives `json` as its message.
pub proof fn law_read_returns_added(stream: Seq<char>, json: Seq<char>, entry: ReadEntry)
    requires
        read_fields_view(entry.fields@) == as_read(entry_fields_view(json)),
    ensures
        add_start_view(stream, Ok(json)) == (StreamActionView::Append {
            stream,
            fields: entry_fields_view(json),
        }),
        read_text(entry) == Ok::<Seq<char>, Seq<char>>(json),
{
    lemma_written_entry_read(entry, json);
}

/// Reading entries that adds wrote gives back, in order, each entry's id
/// with the payload that was added.
pub proof fn law_read_returns_added_in_order(entries: Seq<ReadEntry>, payloads: Seq<Seq<char>>)
    requires
        entries.len() == payloads.len(),
        forall|i: int|
            0 <= i < entries.len() ==> read_fields_view((#[trigger] entries[i]).fields@) == as_read(
                entry_fields_view(payloads[i]),
            ),
    ensures
        read_messages(entries) == Ok::<Seq<(Seq<char>, Seq<char>)>, Seq<char>>(
            Seq::new(entries.len(), |i: int| (entries[i].id@, payloads[i])),
        ),
{
    let texts = read_texts(entries);
    assert forall|i: int| 0 <= i < entries.len() implies texts[i] == Ok::<Seq<char>, Seq<char>>(
        payloads[i],
    ) by {
        lemma_written_entry_read(entries[i], payloads[i]);
    }
    assert(all_ok(texts));
    assert(Seq::new(entries.len(), |i: int| (entries[i].id@, texts[i]->Ok_0)) =~= Seq::new(
        entries.len(),
        |i: int| (entries[i].id@, payloads[i]),
    ));
}

/// A claim gives back what an add wrote: an entry claimed whose fields are
/// those an add of `json` wrote has `json` as its message.
pub proof fn law_claim_returns_added(json: Seq<char>, entry: ClaimedEntry)
    requires
        fields_view(entry.fields@) == entry_fields_view(json),
    ensures
        claimed_text(entry) == json,
{
    let fields = entry.fields@;
    assert(fields_view(fields).len() == 1);
    assert(fields_view(fields)[0] == entry_fields_view(json)[0]);
    assert(is_first_field(fields, message_field(), 0));
    lemma_first_field(fields, message_field());
}

/// Creating a stream appends "stream <name> created", then deletes exactly
/// the entry that append added; it ends well exactly when both succeed, and
/// a failure is reported as the step that failed.
pub proof fn law_create_stream_protocol(
    stream: Seq<char>,
    appended: Result<Seq<char>, Seq<char>>,
    deleted: Result<(), Seq<char>>,
)
    ensures
        create_start_view(stream) == (StreamActionView::Append {
            stream,
            fields: entry_fields_view(creation_text(stream)),
        }),
        appended matches Ok(id) ==> create_after_append_view(stream, appended) == (
        StreamActionView::Delete { stream, id }),
        ({
            let end = match create_after_append_view(stream, appended) {
                StreamActionView::Delete { .. } => create_after_delete_view(deleted),
                other => other,
            };
            &&& (end == StreamActionView::Finish(Ok(()))) <==> (appended is Ok && deleted is Ok)
            &&& end is Finish
        }),
{
}

/// Adding a message ends well exactly when it could be serialised and its
/// entry appended; what is appended is its JSON text, in the "message" field.
pub proof fn law_add_protocol(
    stream: Seq<char>,
    serialized: Result<Seq<char>, Seq<char>>,
    appended: Result<Seq<char>, Seq<char>>,
)
    ensures
        serialized matches Ok(json) ==> add_start_view(stream, serialized) == (
        StreamActionView::Append { stream, fields: entry_fields_view(json) }),
        ({
            let end = match add_start_view(stream, serialized) {
                StreamActionView::Append { .. } => add_after_append_view(appended),
                other => other,
            };
            &&& (end == StreamActionView::Finish(Ok(()))) <==> (serialized is Ok && appended is Ok)
            &&& end is Finish
        }),
{
}

/// A claimer acknowledges every message a claim hands over, one each, in
/// the order they were handed over, and nothing else.
pub proof fn law_claimer_acks_every_claimed(rows: Seq<ClaimReply>)
    requires
        rows.len() > 0,
    ensures
        ({
            let ids = claimed_messages(rows).map_values(|m: (Seq<char>, Seq<char>)| m.0);
            let acks = claim_acks(Some(ids));
            &&& acks.len() == claimed_messages(rows).len()
            &&& forall|i: int|
                0 <= i < acks.len() ==> #[trigger] acks[i] == service_ack(claimed_messages(rows)[i].0)
        }),
{
}

/// An extractor acknowledges at most one message per read: the first one.
pub proof fn law_extractor_acks_first_read(ids: Seq<Seq<char>>)
    ensures
        ids.len() == 0 ==> read_ack(Some(ids)) is None,
        ids.len() > 0 ==> read_ack(Some(ids)) == Some(service_ack(ids[0])),
        read_ack(None) is None,
{
}

/// A consumer's name starts with its prefix, and is longer exactly when its
/// thread has a number.
pub proof fn law_consumer_name_extends_prefix(prefix: Seq<char>, number: Option<Seq<char>>)
    ensures
        consumer_name(prefix, number).subrange(0, prefix.len() as int) == prefix,
        (consumer_name(prefix, number).len() > prefix.len()) <==> number is Some,
{
    match number {
        Some(n) => {
            reveal_strlit("-");
            assert(consumer_name(prefix, number).subrange(0, prefix.len() as int) =~= prefix);
        },
        None => {
            assert(consumer_name(prefix, number).subrange(0, prefix.len() as int) =~= prefix);
        },
    }
}


/// A group read gives every entry of the first stream returned, in order:
/// where each entry's first "message" field holds text, the read succeeds
/// with one message per entry, the `i`-th being the `i`-th entry's id with
/// that text.
pub proof fn law_read_gives_every_entry(reply: ReadReply)
    requires
        reply.keys@.len() > 0,
        forall|i: int|
            0 <= i < reply.keys@[0].ids@.len() ==> has_field(
                #[trigger] reply.keys@[0].ids@[i].fields@,
                "message"@,
            ),
        forall|i: int, k: int|
            0 <= i < reply.keys@[0].ids@.len() && #[trigger] is_first_field(
                reply.keys@[0].ids@[i].fields@,
                "message"@,
                k,
            ) ==> reply.keys@[0].ids@[i].fields@[k].1 is Ok,
    ensures
        ({
            let entries = reply.keys@[0].ids@;
            &&& read_reply_messages(reply) is Ok
            &&& read_reply_messages(reply)->Ok_0.len() == entries.len()
            &&& forall|i: int, k: int|
                0 <= i < entries.len() && #[trigger] is_first_field(entries[i].fields@, "message"@, k)
                    ==> read_reply_messages(reply)->Ok_0[i] == (
                    entries[i].id@,
                    entries[i].fields@[k].1->Ok_0@,
                )
        }),
{
    let entries = reply.keys@[0].ids@;
    let texts = read_texts(entries);
    assert forall|i: int| 0 <= i < entries.len() implies texts[i] is Ok by {
        lemma_first_field(entries[i].fields@, message_field());
        let k = first_field(entries[i].fields@, message_field());
        assert(is_first_field(entries[i].fields@, "message"@, k));
    }
    assert(all_ok(texts));
    assert forall|i: int, k: int|
        0 <= i < entries.len() && #[trigger] is_first_field(entries[i].fields@, "message"@, k)
            implies read_reply_messages(reply)->Ok_0[i] == (entries[i].id@, entries[i].fields@[k].1->Ok_0@) by {
        lemma_first_field(entries[i].fields@, message_field());
        assert(texts[i] == read_text(entries[i]));
    }
}

/// A group read fails exactly at the first entry whose "message" field holds
/// no text, with that field's cause.
pub proof fn law_read_fails_at_first_bad_entry(reply: ReadReply, bad: int, k: int)
    requires
        reply.keys@.len() > 0,
        0 <= bad < reply.keys@[0].ids@.len(),
        forall|i: int|
            0 <= i < reply.keys@[0].ids@.len() ==> has_field(
                #[trigger] reply.keys@[0].ids@[i].fields@,
                "message"@,
            ),
        forall|i: int, j: int|
            0 <= i < bad && #[trigger] is_first_field(reply.keys@[0].ids@[i].fields@, "message"@, j)
                ==> reply.keys@[0].ids@[i].fields@[j].1 is Ok,
        is_first_field(reply.keys@[0].ids@[bad].fields@, "message"@, k),
        reply.keys@[0].ids@[bad].fields@[k].1 is Err,
    ensures
        read_reply_messages(reply) == Err::<Seq<(Seq<char>, Seq<char>)>, Seq<char>>(
            reply.keys@[0].ids@[bad].fields@[k].1->Err_0@,
        ),
{
    let entries = reply.keys@[0].ids@;
    let texts = read_texts(entries);
    assert forall|i: int| 0 <= i < bad implies texts[i] is Ok by {
        lemma_first_field(entries[i].fields@, message_field());
        let j = first_field(entries[i].fields@, message_field());
        assert(is_first_field(entries[i].fields@, "message"@, j));
    }
    lemma_first_field(entries[bad].fields@, message_field());
    assert(texts[bad] == read_text(entries[bad]));
    assert(!all_ok(texts));
    lemma_first_err(texts, bad);
}

/// Each word of the `XPENDING` command is fixed by its parameter: the
/// stream, the group, `IDLE` and the caller's minimum idle time, the whole
/// id range, and the caller's count.
pub proof fn law_pending_command_words(stream: Seq<char>, group: Seq<char>, min_idle: usize, count: usize)
    ensures
        ({
            let w = pending_command_view(stream, group, min_idle, count);
            &&& w.len() == 8
            &&& w[0] == CommandArgView::Text("XPENDING"@)
            &&& w[1] == CommandArgView::Text(stream)
            &&& w[2] == CommandArgView::Text(group)
            &&& w[3] == CommandArgView::Text("IDLE"@)
            &&& w[4] == CommandArgView::Count(min_idle)
            &&& w[5] == CommandArgView::Text("-"@)
            &&& w[6] == CommandArgView::Text("+"@)
            &&& w[7] == CommandArgView::Count(count)
        }),
{
}

/// Two `XPENDING` commands are the same only for the same stream, group,
/// minimum idle time and count.
pub proof fn law_pending_command_determines_parameters(
    s1: Seq<char>, g1: Seq<char>, m1: usize, n1: usize,
    s2: Seq<char>, g2: Seq<char>, m2: usize, n2: usize,
)
    requires
        pending_command_view(s1, g1, m1, n1) == pending_command_view(s2, g2, m2, n2),
    ensures
        s1 == s2 && g1 == g2 && m1 == m2 && n1 == n2,
{
    law_pending_command_words(s1, g1, m1, n1);
    law_pending_command_words(s2, g2, m2, n2);
}

/// Each word of the `XAUTOCLAIM` command is fixed by its parameter: the
/// stream, group and consumer, the caller's minimum idle time, the start
/// id, then `COUNT` and the caller's count.
pub proof fn law_auto_claim_command_words(
    stream: Seq<char>, group: Seq<char>, consumer: Seq<char>, min_idle: usize,
    start_id: Seq<char>, count: usize,
)
    ensures
        ({
            let w = auto_claim_command_view(stream, group, consumer, min_idle, start_id, count);
            &&& w.len() == 8
            &&& w[0] == CommandArgView::Text("XAUTOCLAIM"@)
            &&& w[1] == CommandArgView::Text(stream)
            &&& w[2] == CommandArgView::Text(group)
            &&& w[3] == CommandArgView::Text(consumer)
            &&& w[4] == CommandArgView::Count(min_idle)
            &&& w[5] == CommandArgView::Text(start_id)
            &&& w[6] == CommandArgView::Text("COUNT"@)
            &&& w[7] == CommandArgView::Count(count)
        }),
{
}

/// Two `XAUTOCLAIM` commands are the same only for the same stream, group,
/// consumer, minimum idle time, start id and count.
pub proof fn law_auto_claim_command_determines_parameters(
    s1: Seq<char>, g1: Seq<char>, c1: Seq<char>, m1: usize, i1: Seq<char>, n1: usize,
    s2: Seq<char>, g2: Seq<char>, c2: Seq<char>, m2: usize, i2: Seq<char>, n2: usize,
)
    requires
        auto_claim_command_view(s1, g1, c1, m1, i1, n1) == auto_claim_command_view(s2, g2, c2, m2, i2, n2),
    ensures
        s1 == s2 && g1 == g2 && c1 == c2 && m1 == m2 && i1 == i2 && n1 == n2,
{
    law_auto_claim_command_words(s1, g1, c1, m1, i1, n1);
    law_auto_claim_command_words(s2, g2, c2, m2, i2, n2);
}

/// What the workers acknowledge follows the messages an outcome holds: a
/// successful outcome hands over each message's id, in order; a claimer
/// acknowledges each of them in the stream "stream" and group "group"; an
/// extractor acknowledges the first one where there is one. A failed
/// outcome hands over nothing and nothing is acknowledged.
pub proof fn law_acks_follow_messages<T>(v: Vec<StreamResult<T>>, e: Error)
    ensures
        claimed_ids::<T>(Ok(v)) is Some,
        claimed_ids::<T>(Ok(v))->Some_0.len() == v@.len(),
        forall|i: int| 0 <= i < v@.len() ==> #[trigger] claimed_ids::<T>(Ok(v))->Some_0[i] == v@[i].id@,
        claim_acks(claimed_ids::<T>(Ok(v))).len() == v@.len(),
        forall|i: int|
            0 <= i < v@.len() ==> #[trigger] claim_acks(claimed_ids::<T>(Ok(v)))[i] == (
                "stream"@,
                "group"@,
                v@[i].id@,
            ),
        v@.len() > 0 ==> read_ack(claimed_ids::<T>(Ok(v))) == Some(("stream"@, "group"@, v@[0].id@)),
        v@.len() == 0 ==> read_ack(claimed_ids::<T>(Ok(v))) is None,
        claimed_ids::<T>(Err(e)) is None,
        claim_acks(claimed_ids::<T>(Err(e))).len() == 0,
        read_ack(claimed_ids::<T>(Err(e))) is None,
{
}

/// The thread label "ThreadId(<digits>)" has `<digits>` as its first run of
/// digits, whole; so [`crate::helpers::get_consumer_name`] names its
/// consumer prefix, "-" and all of those digits.
pub proof fn law_thread_label_number(digits: Seq<char>)
    requires
        digits.len() > 0,
        forall|i: int| 0 <= i < digits.len() ==> is_ascii_digit(#[trigger] digits[i]),
    ensures
        first_digit_run("ThreadId("@ + digits + ")"@, "ThreadId("@, digits, ")"@),
{
    reveal_strlit("ThreadId(");
    reveal_strlit(")");
}


/// The messages of a batch of claimed entries are the entries, one each and
/// in order: each entry's id with the text of its first "message" field, or
/// the empty text where it has none.
pub proof fn law_claimed_batch_gives_every_entry(batch: Vec<ClaimedEntry>)
    ensures
        batch_messages(batch).len() == batch@.len(),
        forall|i: int|
            0 <= i < batch@.len() ==> (#[trigger] batch_messages(batch)[i]).0 == batch@[i].id@,
        forall|i: int, k: int|
            0 <= i < batch@.len() && #[trigger] is_first_field(batch@[i].fields@, "message"@, k)
                ==> batch_messages(batch)[i].1 == batch@[i].fields@[k].1@,
        forall|i: int|
            0 <= i < batch@.len() && !has_field(#[trigger] batch@[i].fields@, "message"@)
                ==> batch_messages(batch)[i].1 == Seq::<char>::empty(),
{
    assert forall|i: int, k: int|
        0 <= i < batch@.len() && #[trigger] is_first_field(batch@[i].fields@, "message"@, k)
            implies batch_messages(batch)[i].1 == batch@[i].fields@[k].1@ by {
        lemma_first_field(batch@[i].fields@, message_field());
    }
}

/// An auto-claim whose reply holds a single batch hands over exactly the
/// messages of that batch.
pub proof fn law_claim_of_one_batch(rows: Seq<ClaimReply>)
    requires
        rows.len() > 0,
        rows[0].claimed@.len() == 1,
    ensures
        claimed_messages(rows) == batch_messages(rows[0].claimed@[0]),
{
    let per = rows[0].claimed@.map_values(|b: Vec<ClaimedEntry>| batch_messages(b));
    assert(per.len() == 1);
    per.lemma_flatten_singleton();
}

/// One more batch in an auto-claim reply adds its messages after the others.
pub proof fn law_claim_batches_concatenate(rows1: Seq<ClaimReply>, rows2: Seq<ClaimReply>, extra: Vec<ClaimedEntry>)
    requires
        rows1.len() > 0,
        rows2.len() > 0,
        rows2[0].claimed@ == rows1[0].claimed@.push(extra),
    ensures
        claimed_messages(rows2) == claimed_messages(rows1) + batch_messages(extra),
{
    let per1 = rows1[0].claimed@.map_values(|b: Vec<ClaimedEntry>| batch_messages(b));
    let per2 = rows2[0].claimed@.map_values(|b: Vec<ClaimedEntry>| batch_messages(b));
    assert(per2 =~= per1.push(batch_messages(extra)));
    per1.lemma_flatten_push(batch_messages(extra));
}

/// The pending list has one entry per entry of the reply's first element, in
/// order, with its id, its consumer, and its idle time and delivery count as
/// `as` converts them to `usize`; an empty reply lists nothing.
pub proof fn law_pending_lists_every_entry(reply: Seq<Vec<(String, String, i64, i64)>>)
    ensures
        reply.len() == 0 ==> pending_view(reply).len() == 0,
        reply.len() > 0 ==> pending_view(reply).len() == reply[0]@.len(),
        reply.len() > 0 ==> forall|i: int|
            0 <= i < reply[0]@.len() ==> #[trigger] pending_view(reply)[i] == (
                reply[0]@[i].0@,
                reply[0]@[i].1@,
                reply[0]@[i].2 as usize,
                reply[0]@[i].3 as usize,
            ),
{
}

/// The plain views of command words, fields, messages and acknowledgements
/// keep every element, in order, each as its own view.
pub proof fn law_views_keep_every_element(
    args: Seq<CommandArg>,
    fields: Seq<(String, String)>,
    results: Seq<StreamResult<String>>,
    acks: Seq<AckRequest>,
)
    ensures
        args_view(args).len() == args.len(),
        forall|i: int| 0 <= i < args.len() ==> #[trigger] args_view(args)[i] == match args[i] {
            CommandArg::Text(t) => CommandArgView::Text(t@),
            CommandArg::Count(n) => CommandArgView::Count(n),
        },
        fields_view(fields).len() == fields.len(),
        forall|i: int| 0 <= i < fields.len() ==> #[trigger] fields_view(fields)[i] == (fields[i].0@, fields[i].1@),
        results_view(results).len() == results.len(),
        forall|i: int| 0 <= i < results.len() ==> #[trigger] results_view(results)[i] == (results[i].id@, results[i].data@),
        acks_view(acks).len() == acks.len(),
        forall|i: int| 0 <= i < acks.len() ==> #[trigger] acks_view(acks)[i] == (acks[i].stream@, acks[i].group@, acks[i].id@),
{
}

/// A read's outcome, as plain values, keeps every message it holds, or the
/// cause of its error.
pub proof fn law_read_outcome_view(v: Vec<StreamResult<String>>, e: Error)
    ensures
        read_outcome_view(Ok(v)) matches Ok(m) && m.len() == v@.len() && (forall|i: int|
            0 <= i < v@.len() ==> #[trigger] m[i] == (v@[i].id@, v@[i].data@)),
        read_outcome_view(Err(e)) == Err::<Seq<(Seq<char>, Seq<char>)>, Seq<char>>(e@.1),
{
}

} // verus!
