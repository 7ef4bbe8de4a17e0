use event_driven_ms::app_state::AppState;
use event_driven_ms::commands::{
    auto_claim_command, command_failed, command_outcome, creation_message, entry_fields,
    pending_command, CommandArg, StreamCommand,
};
use event_driven_ms::errors::{Error, ErrorKind};
use event_driven_ms::redis_stream::{RedisStream, StreamAction};
use event_driven_ms::replies::{
    claimed_from_reply, collect_parsed, convert_from_redis, find_field, pending_from_reply,
    ClaimReply, ClaimedEntry, ReadEntry, ReadKey, ReadReply,
};
use event_driven_ms::schemas::StreamResult;
use event_driven_ms::settings::{GlobalConfig, RedisConfig};

fn s(t: &str) -> String {
    t.to_string()
}

fn texts(args: &[CommandArg]) -> Vec<String> {
    args.iter()
        .map(|a| match a {
            CommandArg::Text(t) => t.clone(),
            CommandArg::Count(n) => format!("#{}", n),
        })
        .collect()
}

fn read_entry(id: &str, fields: Vec<(&str, Result<&str, &str>)>) -> ReadEntry {
    ReadEntry {
        id: s(id),
        fields: fields
            .into_iter()
            .map(|(n, v)| (s(n), v.map(s).map_err(s)))
            .collect(),
    }
}

#[test]
fn pending_command_words() {
    let c = pending_command("stream", "group", 3000, 15);
    assert_eq!(texts(&c), vec!["XPENDING", "stream", "group", "IDLE", "#3000", "-", "+", "#15"]);
}

#[test]
fn auto_claim_command_words() {
    let c = auto_claim_command("stream", "group", "claimer-3", 3000, "0-0", 1);
    assert_eq!(
        texts(&c),
        vec!["XAUTOCLAIM", "stream", "group", "claimer-3", "#3000", "0-0", "COUNT", "#1"]
    );
}

#[test]
fn added_entry_carries_payload_in_message_field() {
    let f = entry_fields(s("{\"a\":1}"));
    assert_eq!(f, vec![(s("message"), s("{\"a\":1}"))]);
    assert_eq!(creation_message("orders"), "stream orders created");
}

#[test]
fn find_field_gives_the_first_of_that_name() {
    let fields = vec![(s("a"), 1), (s("message"), 2), (s("message"), 3)];
    assert_eq!(find_field(&fields, &s("message")), Some(1));
    assert_eq!(find_field(&fields, &s("b")), None);
    let none: Vec<(String, u8)> = Vec::new();
    assert_eq!(find_field(&none, &s("a")), None);
}

#[test]
fn read_reply_gives_ids_and_messages_in_order() {
    let reply = ReadReply {
        keys: vec![ReadKey {
            key: s("stream"),
            ids: vec![
                read_entry("1-0", vec![("message", Ok("{\"x\":1}"))]),
                read_entry("2-0", vec![("other", Ok("z")), ("message", Ok("{\"x\":2}"))]),
            ],
        }],
    };
    assert!(reply.has_messages());
    let r = convert_from_redis(&reply).unwrap();
    assert_eq!(r.len(), 2);
    assert_eq!((r[0].id.as_str(), r[0].data.as_str()), ("1-0", "{\"x\":1}"));
    assert_eq!((r[1].id.as_str(), r[1].data.as_str()), ("2-0", "{\"x\":2}"));
}

#[test]
fn read_fails_on_the_first_message_that_is_no_text() {
    let reply = ReadReply {
        keys: vec![ReadKey {
            key: s("stream"),
            ids: vec![
                read_entry("1-0", vec![("message", Ok("a"))]),
                read_entry("2-0", vec![("message", Err("not a string"))]),
                read_entry("3-0", vec![("message", Err("later"))]),
            ],
        }],
    };
    assert_eq!(convert_from_redis(&reply).unwrap_err(), Error::Parsing(s("not a string")));
}

#[test]
fn read_outcome_cases() {
    let empty = ReadReply { keys: vec![] };
    assert!(empty.has_messages());
    assert!(RedisStream::read_outcome(Ok(empty)).unwrap().is_empty());
    assert_eq!(
        RedisStream::read_outcome(Err(s("timeout"))).unwrap_err(),
        Error::ReadStreamMessage(s("timeout"))
    );
    let missing = ReadReply {
        keys: vec![ReadKey { key: s("stream"), ids: vec![read_entry("1-0", vec![("x", Ok("y"))])] }],
    };
    assert!(!missing.has_messages());
}

fn claimed(id: &str, fields: Vec<(&str, &str)>) -> ClaimedEntry {
    ClaimedEntry { id: s(id), fields: fields.into_iter().map(|(a, b)| (s(a), s(b))).collect() }
}

#[test]
fn claim_reply_flattens_batches_in_order() {
    let reply = vec![
        ClaimReply {
            next_start_id: s("0-0"),
            claimed: vec![
                vec![claimed("1-0", vec![("message", "m1")]), claimed("2-0", vec![])],
                vec![],
                vec![claimed("3-0", vec![("k", "v"), ("message", "m3")])],
            ],
            deleted_ids: vec![s("9-0")],
        },
        ClaimReply { next_start_id: s("0-0"), claimed: vec![vec![claimed("4-0", vec![])]], deleted_ids: vec![] },
    ];
    let r = claimed_from_reply(&reply);
    let got: Vec<(String, String)> = r.into_iter().map(|m| (m.id, m.data)).collect();
    assert_eq!(got, vec![(s("1-0"), s("m1")), (s("2-0"), s("")), (s("3-0"), s("m3"))]);
    assert_eq!(
        RedisStream::auto_claim_outcome(Err(s("NOGROUP"))).unwrap_err(),
        Error::ClaimStreamMessage(s("NOGROUP"))
    );
}

#[test]
fn pending_reply_converts_entries_of_its_first_element() {
    let reply = vec![
        vec![(s("1-0"), s("c1"), 5000i64, 2i64), (s("2-0"), s("c2"), -1i64, 0i64)],
        vec![(s("ignored"), s("c"), 1i64, 1i64)],
    ];
    let r = pending_from_reply(&reply);
    assert_eq!(r.len(), 2);
    assert_eq!(r[0].id, "1-0");
    assert_eq!(r[0].consumer, "c1");
    assert_eq!(r[0].idle, 5000);
    assert_eq!(r[0].delivery_count, 2);
    assert_eq!(r[1].idle, -1i64 as usize);
    assert!(pending_from_reply(&vec![]).is_empty());
    assert_eq!(
        RedisStream::pending_outcome(Err(s("e"))).unwrap_err(),
        Error::PendingStreamMessage(s("e"))
    );
    assert_eq!(RedisStream::pending_outcome(Ok(reply)).unwrap().len(), 2);
}

#[test]
fn collect_parsed_keeps_order_or_reports_first_failure() {
    let ok = vec![
        StreamResult { id: s("1"), data: Ok::<u32, String>(10) },
        StreamResult { id: s("2"), data: Ok(20) },
    ];
    let v = collect_parsed(ok).unwrap();
    assert_eq!(v.iter().map(|r| (r.id.clone(), r.data)).collect::<Vec<_>>(), vec![(s("1"), 10), (s("2"), 20)]);
    let bad = vec![
        StreamResult { id: s("1"), data: Ok::<u32, String>(10) },
        StreamResult { id: s("2"), data: Err(s("expected value")) },
        StreamResult { id: s("3"), data: Err(s("other")) },
    ];
    assert_eq!(collect_parsed(bad).unwrap_err(), Error::Parsing(s("expected value")));
}

#[test]
fn command_failures_map_to_their_errors() {
    assert_eq!(command_failed(StreamCommand::Ack, s("x")), Error::AckStreamMessage(s("x")));
    assert_eq!(command_failed(StreamCommand::Delete, s("x")), Error::DeleteStreamMessage(s("x")));
    assert_eq!(command_failed(StreamCommand::Append, s("x")), Error::AddStreamMessage(s("x")));
    assert_eq!(command_outcome(StreamCommand::Read, Ok::<u8, String>(3)), Ok(3));
    assert_eq!(
        command_outcome::<u8>(StreamCommand::Pending, Err(s("p"))),
        Err(Error::PendingStreamMessage(s("p")))
    );
    assert_eq!(Error::new(ErrorKind::ClaimStreamMessage, s("c")), command_failed(StreamCommand::AutoClaim, s("c")));
}

#[test]
fn create_stream_appends_then_deletes_what_it_added() {
    match RedisStream::create_stream_start("stream") {
        StreamAction::Append { stream, fields } => {
            assert_eq!(stream, "stream");
            assert_eq!(fields, vec![(s("message"), s("stream stream created"))]);
        }
        _ => panic!("expected an append"),
    }
    match RedisStream::create_stream_after_append("stream", Ok(s("5-0"))) {
        StreamAction::Delete { stream, id } => {
            assert_eq!(stream, "stream");
            assert_eq!(id, "5-0");
        }
        _ => panic!("expected a delete"),
    }
    match RedisStream::create_stream_after_append("stream", Err(s("OOM"))) {
        StreamAction::Finish(Err(e)) => assert_eq!(e, Error::AddStreamMessage(s("OOM"))),
        _ => panic!("expected a failure"),
    }
    assert!(matches!(RedisStream::create_stream_after_delete(Ok(())), StreamAction::Finish(Ok(()))));
    match RedisStream::create_stream_after_delete(Err(s("gone"))) {
        StreamAction::Finish(Err(e)) => assert_eq!(e, Error::DeleteStreamMessage(s("gone"))),
        _ => panic!("expected a failure"),
    }
}

#[test]
fn add_serialises_then_appends() {
    match RedisStream::add_start("stream", Ok(s("{}"))) {
        StreamAction::Append { stream, fields } => {
            assert_eq!(stream, "stream");
            assert_eq!(fields, vec![(s("message"), s("{}"))]);
        }
        _ => panic!("expected an append"),
    }
    match RedisStream::add_start("stream", Err(s("bad"))) {
        StreamAction::Finish(Err(e)) => assert_eq!(e, Error::Serialization(s("bad"))),
        _ => panic!("expected a failure"),
    }
    assert!(matches!(RedisStream::add_after_append(Ok(s("1-0"))), StreamAction::Finish(Ok(()))));
    match RedisStream::add_after_append(Err(s("READONLY"))) {
        StreamAction::Finish(Err(e)) => assert_eq!(e, Error::AddStreamMessage(s("READONLY"))),
        _ => panic!("expected a failure"),
    }
}

#[test]
fn read_back_of_an_added_entry_gives_the_payload() {
    let fields = entry_fields(s("{\"url\":\"u\"}"));
    let entry = ReadEntry { id: s("7-0"), fields: fields.into_iter().map(|(n, v)| (n, Ok(v))).collect() };
    let reply = ReadReply { keys: vec![ReadKey { key: s("stream"), ids: vec![entry] }] };
    let r = RedisStream::read_outcome(Ok(reply)).unwrap();
    assert_eq!(r[0].id, "7-0");
    assert_eq!(r[0].data, "{\"url\":\"u\"}");
}

#[test]
fn redis_stream_opens_for_a_redis_url_only() {
    assert!(RedisStream::new(RedisConfig { redis_connection_string: s("redis://127.0.0.1:6379") }).is_ok());
    let e = RedisStream::new(RedisConfig { redis_connection_string: s("not a url") }).err().unwrap();
    assert_eq!(e.kind(), ErrorKind::RedisConnection);
    let e = RedisStream::new(RedisConfig { redis_connection_string: s("http://h:1") }).err().unwrap();
    assert_eq!(e.kind(), ErrorKind::RedisConnection);
}

#[test]
fn app_state_opens_with_default_settings() {
    let st = AppState::try_new(GlobalConfig::new(None, None, None, None)).ok().unwrap();
    assert_eq!(st.config.server.port, 3000);
    let st = AppState::new(GlobalConfig::new(None, None, None, None));
    assert_eq!(st.config.redis.redis_connection_string, "redis://localhost:6379");
    let bad = GlobalConfig::new(None, None, None, Some(s("nope")));
    assert_eq!(AppState::try_new(bad).err().unwrap().kind(), ErrorKind::RedisConnection);
}

#[test]
fn claim_of_an_added_entry_gives_the_payload() {
    let fields = entry_fields(s("{\"name\":\"n\"}"));
    let reply = vec![ClaimReply {
        next_start_id: s("0-0"),
        claimed: vec![vec![ClaimedEntry { id: s("8-0"), fields }]],
        deleted_ids: vec![],
    }];
    let r = RedisStream::auto_claim_outcome(Ok(reply)).unwrap();
    assert_eq!(r.len(), 1);
    assert_eq!(r[0].id, "8-0");
    assert_eq!(r[0].data, "{\"name\":\"n\"}");
}

#[test]
fn read_and_group_requests() {
    let r = RedisStream::read_request("st", "gr", "co", 4);
    assert_eq!((r.stream.as_str(), r.group.as_str(), r.consumer.as_str()), ("st", "gr", "co"));
    assert_eq!((r.count, r.block_ms, r.from_id.as_str()), (4, 0, ">"));
    let g = RedisStream::create_group_request("st", "gr");
    assert_eq!((g.stream.as_str(), g.group.as_str(), g.start_id.as_str()), ("st", "gr", "$"));
}
