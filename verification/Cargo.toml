[package]
name = "apptuner"
version = "0.1.0"
edition = "2021"
publish = false

[dependencies]
anyhow = "*"
notify = "*"
notify-debouncer-full = "*"
serde = { version = "*", features = ["derive"] }
serde_json = "*"
