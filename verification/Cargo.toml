[package]
name = "navigatum"
version = "0.1.0"
edition = "2021"
publish = false

[dependencies]
chrono = "0.4"
reqwest = { version = "0.12", default-features = false, features = ["json"] }
progenitor-client = "0.11"
serde = { version = "1", features = ["derive"] }
serde_json = "1"
serde_with = "3"
url = "2"
tracing = "0.1"
tracing-subscriber = { version = "0.3", features = ["env-filter", "json"] }
tracing-log = { version = "0.2", features = ["interest-cache"] }
anyhow = "1"
clap = { version = "4", features = ["derive"] }
human-panic = "2"
ifc_rs = "=0.1.0-alpha.9"
actix-web = "4"
actix-cors = "0.7"
actix-rt = "2"
awc = "3"
diesel = { version = "2", default-features = false, features = ["postgres", "chrono"] }
env_logger = "0.11"
futures = "0.3"
log = "0.4"
tokio = { version = "1", features = ["sync", "time", "rt", "macros"] }
