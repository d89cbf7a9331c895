[package]
name = "oxibridge"
version = "0.1.0"
edition = "2021"
publish = false
rust-version = "1.95"

[dependencies]
async-tempfile = "=0.7.0"
async-trait = "=0.1.92"
color-eyre = "=0.6.5"
dptree = "=0.3.0"
env_logger = "=0.11.11"
futures = "=0.3.34"
log = "=0.4.34"
markdown = "=1.0.0"
regex = "=1.13.1"
reqwest = { version = "=0.12.28", default-features = false, features = ["json", "stream"] }
reqwest-websocket = "=0.5.1"
rust-s3 = { version = "=0.35.1", default-features = false, features = ["tokio-rustls-tls", "fail-on-err"] }
secure-string = "=0.3.0"
serde = { version = "=1.0.229", features = ["derive"] }
serde_json = "=1.0.154"
serde_repr = "=0.1.21"
serde_yaml = "=0.9.34"
serenity = { version = "=0.12.5", default-features = false, features = ["builder", "client", "gateway", "http", "model", "rustls_backend"] }
sha256 = { version = "=1.6.0", default-features = false }
# A dependency of teloxide. Its release 0.1.2 asks for a newer compiler than this crate
# is built with, so the release before it is held here.
takecell = "<0.1.2"
teloxide = { version = "=0.13.0", default-features = false }
tokio = { version = "=1.54.1", features = ["full"] }
tracing = "=0.1.44"
tracing-error = "=0.2.1"
tracing-subscriber = { version = "=0.3.23", features = ["env-filter"] }
