[package]
name = "orbly"
version = "0.1.0"
edition = "2021"
publish = false

[dependencies]
adblock = { version = "=0.10.4", default-features = false, features = ["content-blocking", "embedded-domain-resolver", "full-regex-handling"] }
base64 = "=0.22.1"
chrono = { version = "=0.4.45", features = ["serde"] }
dirs = "=6.0.0"
hex = "=0.4.3"
log = "=0.4.34"
open = "=5.4.5"
# Held back for adblock: its rmp-serde 0.15 does not compile against rmp 0.8.15.
rmp = "=0.8.14"
reqwest = { version = "=0.13.5", features = ["json"] }
serde = { version = "=1.0.229", features = ["derive"] }
serde_json = "=1.0.154"
sha2 = "=0.11.1"
shellexpand = "=3.1.2"
sysinfo = "=0.39.6"
tokio = { version = "=1.54.1", features = ["rt-multi-thread", "time", "macros"] }
toml = "=1.1.8"
url = "=2.5.8"
uuid = { version = "=1.29.0", features = ["v4", "serde"] }
