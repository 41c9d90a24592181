[package]
name = "threescalers"
version = "0.1.0"
edition = "2021"
publish = false

[dependencies]
anyhow = "1"
chrono = "0.4"
percent-encoding = "2"
regex = "1"
serde = { version = "1", features = ["derive"] }
serde-xml-rs = "*"

[dev-dependencies]
rand = "*"
itertools = "*"
