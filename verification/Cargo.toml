[package]
name = "zaps"
version = "0.1.0"
edition = "2021"
publish = false

[dependencies]
chrono = "0.4"
uuid = { version = "1", features = ["v4", "serde"] }
base64 = "0.21"
hex = "0.4"
ed25519-dalek = "1"
hmac = "0.12"
sha2 = "0.10"
serde = { version = "1", features = ["derive"] }
serde_json = "1"
reqwest = { version = "0.12", default-features = false, features = ["json"] }
tokio = { version = "1", features = ["rt-multi-thread", "macros", "time", "sync", "net"] }
axum = "0.7"
sqlx = { version = "0.7", default-features = false, features = ["postgres", "runtime-tokio", "chrono", "uuid"] }
tracing = "0.1"
