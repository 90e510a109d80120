[package]
name = "creator_mailer"
version = "0.1.0"
edition = "2021"
publish = false

[dependencies]
iced = { version = "0.12", default-features = false }
rusqlite = { version = "*", features = ["bundled"] }
