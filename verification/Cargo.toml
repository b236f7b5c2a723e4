[package]
name = "fql"
version = "0.1.0"
edition = "2021"
publish = false

[dependencies]
anyhow = "*"
async-trait = "*"
clap = { version = "*", features = ["derive"] }
futures = "*"
hex = "=0.4.3"
serde = { version = "*", features = ["derive"] }
serde_bytes = "*"
thiserror = "*"
tokio = { version = "*", features = ["macros", "rt-multi-thread"] }
uuid = { version = "*", features = ["serde", "v4"] }
