[package]
name = "conclave"
version = "0.1.0"
edition = "2021"
publish = false

[dependencies]
uuid = { version = "1", features = ["v4"] }
chrono = "0.4"
serde = { version = "1", features = ["derive"] }
toml = "0.8"
clap = { version = "4", features = ["derive"] }
directories = "5"
rusqlite = { version = "*", features = ["bundled"] }
crossterm = "0.27"
zeroize = "1"
tokio = { version = "1", features = ["rt-multi-thread", "macros", "sync", "time"] }
hex = "0.4"
tracing = "0.1"
tracing-subscriber = { version = "0.3", features = ["env-filter"] }
thiserror = "1"
anyhow = "1"
notify-rust = "4"
reqwest = { version = "0.12", default-features = false, features = ["rustls-tls", "stream"] }
reqwest-eventsource = "0.6"
futures-util = "0.3"
prost = "0.12"
rustyline = "14"
mls-rs = "*"
mls-rs-core = "*"
mls-rs-codec = "*"
mls-rs-crypto-openssl = "*"
mls-rs-provider-sqlite = "*"

[dev-dependencies]
