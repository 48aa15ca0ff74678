[package]
name = "http_drogue"
version = "0.1.0"
edition = "2021"
publish = false

[dependencies]
sanitize-filename = "*"
ulid = "*"
tokio = { version = "*", features = ["fs", "io-util", "macros", "rt-multi-thread", "sync", "time"] }
reqwest = { version = "*", default-features = false, features = ["stream"] }
futures = "*"
cuttlestore = "*"
serde = { version = "*", features = ["derive"] }
