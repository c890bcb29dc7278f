[package]
name = "wisdom"
version = "0.1.0"
edition = "2021"
publish = false

[dependencies]
console_error_panic_hook = "*"
rand = "*"
serde = { version = "*", features = ["derive"] }
serde_json = "*"
worker = { version = "*", features = ["d1"] }
