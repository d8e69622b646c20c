[package]
name = "finals_tts"
version = "0.1.0"
edition = "2021"
publish = false

[dependencies]
bytes = "1"
chrono = "=0.4.45"
env_logger = { version = "0.11", default-features = false }
futures = { version = "0.3", default-features = false, features = ["std"] }
futures-core = "0.3"
log = { version = "0.4", features = ["kv"] }
poise = "0.6"
reqwest = { version = "0.11", default-features = false, features = ["json", "stream", "rustls-tls"] }
serde = { version = "1", features = ["derive"] }
serde_json = "1"
serenity = { version = "0.12", default-features = false, features = ["cache", "client", "gateway", "model", "rustls_backend"] }
songbird = { version = "0.4", default-features = false, features = ["gateway", "serenity", "rustls"] }
tokio = { version = "1", features = ["macros", "rt-multi-thread", "fs", "io-util"] }
