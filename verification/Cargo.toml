[package]
name = "janus"
version = "0.1.0"
edition = "2021"
publish = false

[dependencies]
fuzzy-matcher = "0.3"
rand = "0.9"
sha2 = "0.10"
regex = "1"
url = "2"
serde = { version = "1", features = ["derive"] }
serde_yaml_ng = "0.10"
iocraft = "*"
crossterm = "*"
jiff = "0.2"
uuid = { version = "1", features = ["v4"] }
libc = "0.2"
