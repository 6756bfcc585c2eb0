[package]
name = "static_website_host"
version = "0.1.0"
edition = "2021"
publish = false

[dependencies]
axum = "*"
axum-extra = { version = "*", features = ["async-read-body"] }
clap = { version = "*", features = ["derive"] }
hyper = { version = "*", features = ["full"] }
hyper-util = { version = "*", features = ["full"] }
serde = { version = "*", features = ["derive"] }
serde_yml = "*"
tokio = { version = "*", features = ["full"] }
tower-service = "*"
