//! Verified core of an event-driven microservice that moves JSON payloads
//! through a Redis stream with consumer groups.
//!
//! The library holds what the service decides: the errors it reports and
//! how they are answered over HTTP, its settings and their defaults, the
//! commands it sends to Redis and how it reads the replies back, how worker
//! threads name themselves, and what each worker acknowledges. Connecting,
//! sending and receiving stay with the caller, which hands the outcomes back.

pub mod errors;
pub mod settings;
pub mod schemas;
pub mod replies;
pub mod commands;
pub mod redis_stream;
pub mod helpers;
pub mod workers;
pub mod handlers;
pub mod app_state;
pub mod laws;
