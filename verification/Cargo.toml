[package]
name = "bank_of_italy_api"
version = "0.1.0"
edition = "2021"
publish = false

[dependencies]
reqwest = { version = "=0.13.5", features = ["json"] }
rust_decimal = "=1.43.0"
serde_json = "=1.0.151"
time = { version = "=0.3.55", features = ["parsing"] }
