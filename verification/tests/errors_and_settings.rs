use event_driven_ms::errors::{Error, ErrorKind};
use event_driven_ms::settings::{GlobalConfig, LoggerConfig, RedisConfig, ServerConfig};

fn s(t: &str) -> String {
    t.to_string()
}

#[test]
fn every_error_message_names_what_failed_and_its_cause() {
    let cases = vec![
        (Error::Serialization(s("x")), "Failed serialization. Cause: x"),
        (Error::Parsing(s("x")), "Payload parsing failed. Cause: x"),
        (Error::RedisConnection(s("x")), "Redis connection failed. Cause: x"),
        (Error::AddStreamMessage(s("x")), "Failed to add to stream. Cause: x"),
        (Error::ReadStreamMessage(s("x")), "Failed to read message from stream. Cause: x"),
        (Error::ClaimStreamMessage(s("x")), "Failed to claim from stream. Cause: x"),
        (Error::PendingStreamMessage(s("x")), "Failed to get pending messages. Cause: x"),
        (Error::DeleteStreamMessage(s("x")), "Failed to delete stream message. Cause: x"),
        (Error::AckStreamMessage(s("x")), "Failed to acknowledge message. Cause: x"),
        (Error::CreateConsumerGroup(s("x")), "Failed to create group. Cause: x"),
        (Error::CreateStream(s("x")), "Failed to create stream. Cause: x"),
    ];
    for (e, expected) in cases {
        assert_eq!(e.message(), expected);
    }
}

#[test]
fn every_error_is_answered_with_500_and_its_message() {
    let e = Error::AckStreamMessage(s("NOGROUP"));
    assert_eq!(e.status_code(), 500);
    let r = e.error_response();
    assert_eq!(r.status, 500);
    assert_eq!(r.body, "Failed to acknowledge message. Cause: NOGROUP");
}

#[test]
fn error_new_builds_the_variant_of_its_kind() {
    assert_eq!(Error::new(ErrorKind::Parsing, s("bad")), Error::Parsing(s("bad")));
    assert_eq!(Error::new(ErrorKind::CreateStream, s("c")), Error::CreateStream(s("c")));
    let e = Error::new(ErrorKind::DeleteStreamMessage, s("d"));
    assert_eq!(e.kind(), ErrorKind::DeleteStreamMessage);
    assert_eq!(e.cause(), "d");
    assert_eq!(Error::Parsing(String::new()).message(), "Payload parsing failed. Cause: ");
}

#[test]
fn settings_fall_back_to_defaults() {
    let c = GlobalConfig::new(None, None, None, None);
    assert_eq!(c.server.host, "localhost");
    assert_eq!(c.server.port, 3000);
    assert_eq!(c.logger.file_path, "logs/crawler.log");
    assert_eq!(c.logger.file_size, 10 * 1024 * 1024);
    assert_eq!(c.logger.file_count, 5);
    assert_eq!(c.redis.redis_connection_string, "redis://localhost:6379");
}

#[test]
fn settings_read_from_the_environment_are_kept() {
    let c = GlobalConfig::new(
        Some(s("0.0.0.0")),
        Some(8080),
        Some(LoggerConfig { file_path: s("a.log"), file_size: 7, file_count: 2 }),
        Some(s("redis://r:1")),
    );
    assert_eq!(c.server.host, "0.0.0.0");
    assert_eq!(c.server.port, 8080);
    assert_eq!(c.logger.file_path, "a.log");
    assert_eq!(c.logger.file_size, 7);
    assert_eq!(c.logger.file_count, 2);
    assert_eq!(c.redis.redis_connection_string, "redis://r:1");
}

#[test]
fn each_server_variable_defaults_on_its_own() {
    let only_host = GlobalConfig::new(Some(s("h")), None, None, None);
    assert_eq!(only_host.server.host, "h");
    assert_eq!(only_host.server.port, 3000);
    assert_eq!(only_host.redis.redis_connection_string, "redis://localhost:6379");
    let only_port = ServerConfig::new(None, Some(9));
    assert_eq!(only_port.host, "localhost");
    assert_eq!(only_port.port, 9);
}

#[test]
fn each_group_of_settings_defaults_on_its_own() {
    assert_eq!(ServerConfig::new(None, None).port, 3000);
    assert_eq!(LoggerConfig::new(None).file_count, 5);
    assert_eq!(RedisConfig::new(None).redis_connection_string, "redis://localhost:6379");
    assert_eq!(RedisConfig::new(Some(s("u"))).redis_connection_string, "u");
    let d: ServerConfig = Default::default();
    assert_eq!(d.host, "localhost");
}
