[package]
name = "meeting_detector"
version = "0.1.0"
edition = "2021"
publish = false

[dependencies]
chrono = "0.4"
cidre = "*"
log = "0.4"
serde = { version = "1", features = ["derive"] }
serde_json = "1"
sysinfo = { version = "0.32", default-features = false, features = ["system"] }
tokio = { version = "1", features = ["macros", "rt", "sync", "time"] }

[dev-dependencies]
regex = "1"
