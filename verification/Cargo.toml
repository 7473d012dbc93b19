[package]
name = "httpie"
version = "0.1.0"
edition = "2021"
publish = false

[dependencies]
anyhow = "=1.0.104"
colored = "=2.2.0"
jsonxf = "=1.1.1"
mime = "=0.3.17"
reqwest = { version = "=0.11.27", features = ["json"] }
serde_json = "=1.0.154"
structopt = "=0.3.26"
tokio = { version = "=1.54.1", features = ["full"] }
