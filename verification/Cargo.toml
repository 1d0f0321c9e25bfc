[package]
name = "rik"
version = "0.1.0"
edition = "2021"
publish = false

[dependencies]
uuid = { version = "1", features = ["v4"] }
tokio = { version = "1", features = ["full"] }
tonic = "0.8"
tokio-stream = "0.1"
async-stream = "0.3"
futures = "0.3"
futures-util = "0.3"
bollard = "0.14"
sysinfo = "0.29"
confy = "0.5"
serde = { version = "1", features = ["derive"] }
serde_derive = "1"
thiserror = "1"
anyhow = "1"
log = "0.4"
env_logger = "0.10"
cidr = "0.2"
