[package]
name = "speedtest_rs"
version = "0.1.0"
edition = "2021"
publish = false

[dependencies]
anyhow = "*"
bytes = "*"
futures = "*"
quick-xml = { version = "*", features = ["serialize"] }
reqwest = { version = "*", default-features = false, features = ["stream"] }
serde = { version = "*", features = ["derive"] }
tokio = { version = "*", features = ["macros", "rt-multi-thread", "sync", "time"] }
