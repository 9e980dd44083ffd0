[package]
name = "plugkit"
version = "0.2.0"
edition = "2021"
publish = false

[dependencies]
serde = { version = "=1.0.229", features = ["derive"] }
serde_json = "=1.0.154"
base64 = "=0.22.1"
bcrypt = "=0.15.1"
mime_guess = "=2.0.5"
jsonwebtoken = "=9.3.1"
rand = "=0.8.8"
uuid = { version = "=1.29.0", features = ["v4"] }
chrono = "=0.4.45"
rusqlite = { version = "=0.31.0", features = ["bundled"] }
parking_lot = "=0.12.5"
flate2 = "=1.1.10"
tar = "=0.4.46"
axum = "=0.7.9"
http = "=1.5.0"
tokio = { version = "=1.54.1", features = ["rt-multi-thread", "macros"] }
walkdir = "=2.5.0"
include_dir = "0.7"
