[package]
name = "isuconf"
version = "0.1.0"
edition = "2021"
publish = false

[dependencies]
anyhow = "=1.0.104"
chrono = "=0.4.45"
colored = "=2.2.0"
futures = "=0.3.34"
openssh = "=0.8.1"
parse-size = "=1.1.0"
serde = "=1.0.229"
serde_derive = "=1.0.229"
serde_yaml = "=0.8.26"
structopt = "=0.3.26"
tokio = { version = "=1.53.2", features = ["full"] }
