[package]
name = "file_entry"
version = "0.1.0"
edition = "2021"
publish = false

[dependencies]
log = "0.4"
mime_guess = "2"
serde = { version = "1", features = ["derive"] }
serde_derive = "1"
