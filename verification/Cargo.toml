[package]
name = "oxdb"
version = "0.1.0"
edition = "2021"
publish = false

[dependencies]
uuid = { version = "1.0", features = ["v4"] }
chrono = "0.4"
dirs = "*"
serde = { version = "1.0", features = ["derive"] }
serde_json = "1.0"
bson = "2.0"
