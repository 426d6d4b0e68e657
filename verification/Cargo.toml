[package]
name = "adventurers"
version = "0.1.0"
edition = "2021"
publish = false

[dependencies]
termgame = "*"
ron = "*"
serde = { version = "1", features = ["derive"] }
