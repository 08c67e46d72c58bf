[package]
name = "shortener"
version = "0.1.0"
edition = "2021"
publish = false

[dependencies]
axum = "*"
base64 = "*"
chrono = "*"
clap = { version = "4", features = ["derive"] }
clap_complete = "4"
csv = "*"
hex = "*"
log = "*"
percent-encoding = "*"
rand = "*"
rusqlite = "*"
serde = { version = "1", features = ["derive"] }
serde_json = "*"
sha2 = "*"
tabled = "*"
tokio = { version = "1", features = ["full"] }
url = "*"
