[package]
name = "runner"
version = "0.1.0"
edition = "2021"
publish = false

[dependencies]
actix-web = "4"
anyhow = "1"
duration-str = "*"
env_logger = "0.11"
log = "0.4"
nix = { version = "*", features = ["fs", "mount", "process", "sched", "signal"] }
serde = { version = "1", features = ["derive"] }
serde_json = "1"
signal-hook = "0.3"
tokio = { version = "1", features = ["io-util", "process", "rt", "rt-multi-thread", "time"] }
uuid = { version = "1", features = ["v4"] }
