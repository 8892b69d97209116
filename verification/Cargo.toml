[package]
name = "carbonable_domain"
version = "0.1.0"
edition = "2021"
publish = false

[dependencies]
starknet = "*"
time = "*"
tokio = { version = "*", features = ["rt-multi-thread", "macros"] }
futures = "*"
serde = { version = "*", features = ["derive"] }
serde_json = "*"
sea-query = "*"
thiserror = "*"
uuid = "*"
