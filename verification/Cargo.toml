[package]
name = "boldtrax"
version = "0.1.0"
edition = "2021"
publish = false

[dependencies]
rust_decimal = "1"
chrono = { version = "0.4", features = ["serde"] }
hmac = "0.12"
sha2 = "0.10"
hex = "0.4"
base64 = "0.22"
url = "2"
http = "1"
moka = { version = "0.12", features = ["sync"] }
uuid = { version = "1", features = ["v4"] }
toml = "0.8"
serde = { version = "1", features = ["derive"] }
serde_json = "1"
tokio = { version = "1", features = ["rt-multi-thread", "macros", "sync", "time"] }
tokio-util = "0.7"
tokio-tungstenite = { version = "0.24", features = ["rustls-tls-webpki-roots"] }
futures-util = "0.3"
reqwest = { version = "0.12", default-features = false, features = ["json", "rustls-tls"] }
reqwest-middleware = "0.4"
reqwest-retry = "0.7"
redis = { version = "0.27", features = ["tokio-comp"] }
zeromq = { version = "0.4", default-features = false, features = ["tokio-runtime", "tcp-transport"] }
rkyv = { version = "0.7", features = ["validation"] }
figment = { version = "0.10", features = ["toml", "env"] }
async-trait = "0.1"
anyhow = "1"
thiserror = "1"
tracing = "0.1"
bytes = "1"
strum = { version = "0.26", features = ["derive"] }
