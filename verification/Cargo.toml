[package]
name = "push_all_server"
version = "0.1.0"
edition = "2021"
publish = false

[dependencies]
tokio = { version = "*", features = ["sync", "rt-multi-thread", "macros", "net", "time"] }
axum = { version = "*", features = ["ws"] }
chrono = "*"
futures = "*"
serde = { version = "*", features = ["derive"] }

[dev-dependencies]
serde_json = "*"
