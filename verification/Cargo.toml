[package]
name = "rateway"
version = "0.1.0"
edition = "2021"
publish = false

[dependencies]
serde = { version = "*", features = ["derive"] }
serde_json = "*"
serde_repr = "*"
toml = "*"
log = "*"
env_logger = "*"
structopt = "*"
futures = "*"
tokio = { version = "*", features = ["full"] }
lapin = "*"
twilight-gateway = "*"
twilight-http = "*"
twilight-model = "*"
twilight-cache-inmemory = "*"
