[package]
name = "rebuildctl"
version = "0.1.0"
edition = "2021"
publish = false

[dependencies]
chrono = { version = "0.4", default-features = false, features = ["std"] }
colored = "2"
env_logger = "0.9"
glob = "0.3"
log = "0.4"
serde = { version = "1", features = ["derive"] }
serde_json = "1"
structopt = "0.3"
