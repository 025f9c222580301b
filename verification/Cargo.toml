[package]
name = "curr"
version = "0.1.0"
edition = "2021"
publish = false

[dependencies]
chrono = "0.4"
comfy-table = "*"
levenshtein = "1"
postcard = { version = "1", features = ["alloc"] }
rust_decimal = "1"
rusty-money = "*"
serde = { version = "1", features = ["derive"] }
