[package]
name = "resk"
version = "0.1.0"
edition = "2021"
publish = false

[dependencies]
ring = "0.17"
base64 = "0.22"
serde_json = "1"
serde = { version = "1", features = ["derive"] }
tokio = { version = "1", features = ["full"] }
actix-web = "4"
reqwest = { version = "0.12", default-features = false }
sea-orm = { version = "1", default-features = false, features = ["sqlx-sqlite", "runtime-tokio-rustls", "macros"] }
log = "0.4"
log4rs = "1"
clipboard = "0.5"
dirs = "5"
hostname = "0.4"
local-ip-address = "0.6"
