[package]
name = "sonarr_plex_cleaner"
version = "0.1.0"
edition = "2021"
publish = false

[dependencies]
byte-unit = "4"
reqwest = { version = "*", default-features = false, features = ["blocking", "json"] }
serde = { version = "*", features = ["derive"] }
serde_json = "*"
serde-xml-rs = "*"
chrono = "*"
humantime = "*"
log = "*"
dirs = "*"
