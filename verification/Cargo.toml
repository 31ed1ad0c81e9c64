[package]
name = "db_back_tool"
version = "0.1.0"
edition = "2021"
publish = false

[dependencies]
chrono = { version = "=0.4.45", features = ["serde"] }
dirs = "=7.0.0"
serde = { version = "=1.0.229", features = ["derive"] }
serde_json = "=1.0.154"
serde_yml = "=0.0.13"
tokio = { version = "=1.54.1", features = ["fs", "process", "io-util", "rt-multi-thread", "macros"] }
async-trait = "=0.1.92"
futures = "=0.3.34"
glob = "=0.3.4"
humansize = "=2.1.3"
shellexpand = "=3.1.2"
tabled = "=0.22.0"
tracing = "=0.1.44"
config = { version = "=0.15.27", default-features = false, features = ["toml", "yaml"] }
