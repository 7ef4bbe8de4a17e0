[package]
name = "event_driven_ms"
version = "0.1.0"
edition = "2021"
publish = false

[dependencies]
actix = "0.13"
actix-web = { version = "4", default-features = false, features = ["macros"] }
dotenv = "0.15"
envy = "0.4"
futures = "0.3"
log = "0.4"
log4rs = "1"
num_cpus = "1"
redis = { version = "0.27", features = ["streams"] }
regex = "1"
serde = { version = "1", features = ["derive"] }
serde_json = "1"
thiserror = "1"
tokio = { version = "1", features = ["rt", "macros"] }
