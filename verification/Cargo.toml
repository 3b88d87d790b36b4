[package]
name = "fleet_core"
version = "0.1.0"
edition = "2021"
publish = false

[dependencies]
axum = "0.7"
reqwest = { version = "0.12", default-features = false, features = ["json"] }
rusqlite = { version = "0.31", features = ["bundled"] }
serde = { version = "1", features = ["derive"] }
serde_json = "1"
surge-ping = "0.8"
sysinfo = "0.30"
thiserror = "1"
tokio = { version = "1", features = ["macros", "rt-multi-thread", "time", "net", "sync"] }
tracing = "0.1"
tracing-subscriber = "0.3"
