use event_driven_ms::errors::Error;
use event_driven_ms::handlers::{healthz, produce_payload, produce_reply};
use event_driven_ms::helpers::{consumer_name_from_match, get_consumer_name};
use event_driven_ms::redis_stream::RedisStream;
use event_driven_ms::commands::CommandArg;
use event_driven_ms::schemas::StreamResult;
use event_driven_ms::settings::RedisConfig;
use event_driven_ms::workers::{ClaimerWorker, ExtractorWorker};

fn s(t: &str) -> String {
    t.to_string()
}

fn results(ids: &[&str]) -> Vec<StreamResult<u8>> {
    ids.iter().map(|i| StreamResult { id: s(i), data: 0 }).collect()
}

#[test]
fn consumer_name_from_thread_label() {
    assert_eq!(get_consumer_name(s("extractor"), "ThreadId(7)"), "extractor-7");
    assert_eq!(get_consumer_name(s("claimer"), "ThreadId(12) and 3"), "claimer-12");
    assert_eq!(get_consumer_name(s("claimer"), "main"), "claimer");
    assert_eq!(get_consumer_name(s(""), "ThreadId(0)"), "-0");
}

#[test]
fn consumer_name_from_found_number() {
    assert_eq!(consumer_name_from_match(s("extractor"), Some(s("5"))), "extractor-5");
    assert_eq!(consumer_name_from_match(s("extractor"), None), "extractor");
}

#[test]
fn claimer_settings_and_command() {
    let w = ClaimerWorker::new(RedisConfig { redis_connection_string: s("redis://h:1") }, s("claimer-2"));
    assert_eq!(w.stream, "stream");
    assert_eq!(w.group, "group");
    assert_eq!(w.min_idle, 3000);
    assert_eq!(w.start_id, "0-0");
    assert_eq!(w.count, 1);
    let words: Vec<String> = w
        .claim_command()
        .into_iter()
        .map(|a| match a {
            CommandArg::Text(t) => t,
            CommandArg::Count(n) => n.to_string(),
        })
        .collect();
    assert_eq!(words, vec!["XAUTOCLAIM", "stream", "group", "claimer-2", "3000", "0-0", "COUNT", "1"]);
}

#[test]
fn claimer_acks_every_claimed_message_in_order() {
    let w = ClaimerWorker::new(RedisConfig { redis_connection_string: s("redis://h:1") }, s("c"));
    let acks = w.acks_after_claim(&Ok(results(&["1-0", "2-0", "3-0"])));
    let got: Vec<(String, String, String)> = acks.into_iter().map(|a| (a.stream, a.group, a.id)).collect();
    assert_eq!(
        got,
        vec![
            (s("stream"), s("group"), s("1-0")),
            (s("stream"), s("group"), s("2-0")),
            (s("stream"), s("group"), s("3-0")),
        ]
    );
    assert!(w.acks_after_claim(&Ok(results(&[]))).is_empty());
    assert!(w.acks_after_claim::<u8>(&Err(Error::ClaimStreamMessage(s("x")))).is_empty());
}

#[test]
fn extractor_reads_one_and_acks_the_first() {
    let stream = RedisStream::new(RedisConfig { redis_connection_string: s("redis://h:1") }).ok().unwrap();
    let w = ExtractorWorker { stream };
    let r = w.read_request();
    assert_eq!((r.stream.as_str(), r.group.as_str(), r.consumer.as_str()), ("stream", "group", "consumer"));
    assert_eq!((r.count, r.block_ms, r.from_id.as_str()), (1, 0, ">"));
    let a = w.ack_after_read(&Ok(results(&["4-0", "5-0"]))).unwrap();
    assert_eq!((a.stream.as_str(), a.group.as_str(), a.id.as_str()), ("stream", "group", "4-0"));
    assert!(w.ack_after_read(&Ok(results(&[]))).is_none());
    assert!(w.ack_after_read::<u8>(&Err(Error::ReadStreamMessage(s("x")))).is_none());
}

#[test]
fn producer_and_health_replies() {
    let p = produce_payload();
    assert_eq!((p.url.as_str(), p.name.as_str(), p.extension.as_str()), ("http://localhost:9090", "localhost", "html"));
    let ok = produce_reply(&Ok(()));
    assert_eq!((ok.status, ok.body.as_str()), (200, "Message added to stream"));
    let bad = produce_reply(&Err(Error::AddStreamMessage(s("x"))));
    assert_eq!((bad.status, bad.body.as_str()), (500, "Failed to add message to stream"));
    let h = healthz();
    assert_eq!((h.status, h.body.as_str()), (200, "OK"));
}
