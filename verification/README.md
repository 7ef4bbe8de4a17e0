# event_driven_ms

An event-driven microservice that moves JSON payloads through a Redis
stream with a consumer group: an HTTP endpoint adds messages, extractor
workers read and acknowledge new ones, and claimer workers take over
messages that other consumers left idle.

- `src/` is the verified library (Verus): errors and their HTTP answers,
  settings and their defaults, the Redis commands the service sends, how
  it reads stream replies back, consumer naming, the steps of creating a
  stream and of adding a message, and what each worker acknowledges.
  `src/laws.rs` holds the properties that span several functions.
- `app/` is the program around it: environment, logging, the Redis
  connection, the actix workers and the HTTP server.
- `tests/` runs the library on concrete values.

Environment variables, each defaulting on its own: `HOST` (default
`localhost`), `PORT` (default `3000`), `REDIS_CONNECTION_STRING` (default
`redis://localhost:6379`). `FILE_PATH`, `FILE_SIZE`, `FILE_COUNT` set the
log file; they are taken together, and where one is missing the log
defaults (`logs/crawler.log`, 10 MiB, 5 files) apply.
