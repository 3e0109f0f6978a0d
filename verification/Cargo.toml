[package]
name = "anvil_minijinja"
version = "0.1.0"
edition = "2021"
publish = false

[dependencies]
anvil = "*"
minijinja = "*"
serde = { version = "*", features = ["derive"] }

[dev-dependencies]
tempfile = "*"
