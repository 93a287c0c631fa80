[package]
name = "session_persistence"
version = "0.1.0"
edition = "2021"
publish = false

[dependencies]
agent-client-protocol = { version = "0.9", features = ["unstable"] }
anyhow = "=1.0.104"
chrono = { version = "=0.4.45", features = ["serde"] }
fs2 = "=0.4.3"
libc = "=0.2.191"
serde = { version = "=1.0.229", features = ["derive"] }
serde_json = "=1.0.154"
sha2 = "=0.10.9"
thiserror = "=2.0.21"
tokio = { version = "=1.54.1", features = ["rt", "sync", "time", "macros"] }
tracing = "=0.1.44"
urlencoding = "=2.1.3"

[dev-dependencies]
tempfile = "=3.27.0"
