[package]
name = "node_dashboard"
version = "0.1.0"
edition = "2021"
publish = false

[dependencies]
bitcoind-request = "*"
pretty_env_logger = "0.4"
serde = { version = "1", features = ["derive"] }
tokio = { version = "1", features = ["macros", "rt-multi-thread"] }
warp = "0.3"
