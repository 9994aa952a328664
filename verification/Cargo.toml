[package]
name = "trove"
version = "0.1.0"
edition = "2021"
publish = false

[dependencies]
rusqlite = { version = "=0.32.1", features = ["bundled", "backup"] }
uuid = { version = "=1.29.0", features = ["v4"] }
chrono = "=0.4.45"
csv = "=1.4.0"
serde = { version = "=1.0.229", features = ["derive"] }
serde_json = "=1.0.154"
sha2 = "=0.10.9"
hex = "=0.4.3"
base64 = "=0.22.1"
clap = { version = "=4.6.7", features = ["derive"] }
url = "=2.5.8"
mime_guess = "=2.0.5"
iana-time-zone = "=0.1.65"

[dev-dependencies]
tempfile = "=3.27.0"
