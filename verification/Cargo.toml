[package]
name = "statusbar"
version = "0.1.0"
edition = "2021"
publish = false

[dependencies]
battery = "0.7"
chrono = "0.4"
chrono-tz = "*"
curl = "0.4"
neli = "0.4"
nl80211 = "*"
serde = { version = "1", features = ["derive"] }
serde_json = "1"
