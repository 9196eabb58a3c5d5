[package]
name = "oewn_rs"
version = "0.1.0"
edition = "2021"
publish = false

[dependencies]
rusqlite = { version = "*", features = ["bundled"] }
rand = "0.8"
serde = { version = "*", features = ["derive"] }
quick-xml = { version = "*", features = ["serialize"] }
