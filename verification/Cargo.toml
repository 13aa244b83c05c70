[package]
name = "farm_snapshot"
version = "0.1.0"
edition = "2021"
publish = false

[dependencies]
rand = "0.8"
chrono = { version = "0.4", default-features = false, features = ["clock", "std", "serde"] }
csv = "1"
serde = { version = "1", features = ["derive"] }
enum-map = "2"
