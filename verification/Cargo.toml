[package]
name = "steinbock_kalender"
version = "0.1.0"
edition = "2021"
publish = false

[dependencies]
table-extract = "*"
rocket = "0.5"
reqwest = { version = "*", default-features = false }
anyhow = "*"

[dev-dependencies]
ics = "*"
