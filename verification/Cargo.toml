[package]
name = "nearby"
version = "0.1.0"
edition = "2021"
publish = false

[dependencies]
anyhow = "*"
bluer = { version = "*", features = ["bluetoothd"] }
dirs = "*"
env_logger = "*"
figment = { version = "*", features = ["toml", "env"] }
futures = "*"
serde = { version = "*", features = ["derive"] }
tokio = { version = "*", features = ["macros", "rt-multi-thread", "sync", "time"] }
zbus = "*"
zbus_systemd = { version = "*", features = ["login1"] }
