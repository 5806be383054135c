[package]
name = "heart_monitor"
version = "0.1.0"
edition = "2021"
publish = false

[dependencies]
bluest = "*"
futures-lite = "*"
serde = { version = "*", features = ["derive"] }
serde_json = "*"
tiny_http = "*"
tokio = { version = "*", features = ["macros", "rt-multi-thread"] }
