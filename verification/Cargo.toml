[package]
name = "oca_repository"
version = "0.1.0"
edition = "2021"
publish = false

[dependencies]
base64 = "=0.22.1"
sha2 = "=0.10.9"
kv = { version = "=0.24.0", features = ["json-value"] }
said = "=0.5.4"
isolang = { version = "=2.4.0", features = ["serde"] }
serde = { version = "=1.0.229", features = ["derive"] }
serde_json = "=1.0.154"
serde-value = "=0.7.0"
rand = "=0.8.8"
ed25519-dalek = "=1.0.1"
uuid = { version = "=1.29.0", features = ["v4"] }
actix-web = "=4.18.1"
tokio = { version = "=1.54.1", features = ["macros", "rt-multi-thread"] }
config = "=0.15.27"
tracing = "=0.1.44"
tracing-subscriber = { version = "=0.3.23", features = ["env-filter"] }
tracing-appender = "=0.2.5"
tracing-log = "=0.2.0"
oca-sdk-rs = "*"
actix-files = "*"
microledger = "*"
keri = "*"
