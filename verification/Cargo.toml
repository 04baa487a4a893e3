[package]
name = "autogen_rust"
version = "0.1.0"
edition = "2021"
publish = false

[dependencies]
anyhow = "1"
dotenv = "0.15"
env_logger = "*"
jsonxf = "*"
lazy_static = "1"
log = "0.4"
once_cell = "1"
ractor = "*"
regex = "1"
reqwest = { version = "0.12", default-features = false, features = ["json", "rustls-tls"] }
serde = { version = "1", features = ["derive"] }
serde_json = "1"
thiserror = "1"
tokio = { version = "1", features = ["full"] }
tokio-util = "0.7"
urlencoding = "2"
uuid = { version = "1", features = ["v4"] }
