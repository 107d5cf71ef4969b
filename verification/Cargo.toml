[package]
name = "axum-jrpc"
version = "0.1.0"
edition = "2021"
publish = false

[dependencies]
serde = { version = "1", features = ["derive"] }
serde_json = "1"
axum = "0.6"
async-trait = "0.1"
