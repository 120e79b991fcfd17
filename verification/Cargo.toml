[package]
name = "ical_items"
version = "0.1.0"
edition = "2021"
publish = false

[dependencies]
ical = "*"
chrono = "*"
chrono-tz = "*"
uuid = { version = "*", features = ["v4"] }
url = "*"
serde = { version = "*", features = ["derive"] }
