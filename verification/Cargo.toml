[package]
name = "playterm"
version = "0.1.0"
edition = "2021"
publish = false

[dependencies]
anyhow = "1"
base64 = "0.22"
crossterm = "0.28"
flate2 = "1"
hex = "0.4"
image = { version = "0.25", default-features = false, features = ["jpeg", "png", "gif", "webp"] }
md5 = "0.7"
mpris-server = "*"
palette_extract = "*"
rand = "0.8"
ratatui = "0.29"
reqwest = { version = "0.12", default-features = false, features = ["json", "blocking", "rustls-tls"] }
rodio = "*"
rustfft = "6"
serde = { version = "1", features = ["derive"] }
serde_json = "1"
souvlaki = "*"
tokio = { version = "1", features = ["rt-multi-thread", "macros", "sync", "time"] }
toml = "0.8"
url = "2"
