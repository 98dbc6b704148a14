[package]
name = "playground"
version = "0.1.0"
edition = "2021"
publish = false

[dependencies]
bodyparser = "0.8"
env_logger = "*"
iron = "0.6"
log = "0.4"
mktemp = "*"
mount = "0.4"
serde = { version = "1", features = ["derive"] }
serde_json = "1"
staticfile = "0.5"
