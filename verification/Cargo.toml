[package]
name = "cloud_console"
version = "0.1.0"
edition = "2021"
publish = false

[dependencies]
axum = { version = "0.5", features = ["ws"] }
futures = "0.3"
mime_guess = "2"
rust-embed = "6"
tokio = { version = "1", features = ["fs", "io-util", "macros", "rt", "sync", "time"] }
tower-http = { version = "0.3", features = ["compression-full"] }
