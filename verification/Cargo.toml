[package]
name = "focus_time"
version = "0.1.0"
edition = "2021"
publish = false

[dependencies]
anyhow = "*"
clap = { version = "*", features = ["derive"] }
dirs = "*"
env_logger = "*"
log = "*"
serde = { version = "*", features = ["derive"] }
swayipc-async = "*"
tokio = { version = "*", features = ["macros", "rt-multi-thread", "signal", "sync", "time"] }
toml = "*"
zbus = { version = "*", default-features = false, features = ["tokio"] }
