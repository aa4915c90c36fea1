[package]
name = "beans_rs"
version = "0.1.0"
edition = "2021"
publish = false

[dependencies]
fltk = "*"
log = "0.4"
reqwest = { version = "0.12", default-features = false }
sentry = { version = "*", default-features = false }
serde = { version = "1", features = ["derive"] }
serde_json = "1"
winreg = "*"
