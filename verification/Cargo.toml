[package]
name = "chatlog_bridge"
version = "0.1.0"
edition = "2021"
publish = false

[dependencies]
anyhow = "=1.0.104"
async-trait = "=0.1.92"
clap = { version = "=4.6.7", features = ["derive", "env"] }
rmcp = { version = "=3.5.1", features = ["transport-io"] }
serenity = "=0.12.5"
tokio = { version = "=1.53.2", features = ["full"] }
