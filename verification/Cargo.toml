[package]
name = "blueos_recorder"
version = "0.1.0"
edition = "2021"
publish = false

[dependencies]
anyhow = "1"
bytes = "1"
chrono = { version = "0.4", default-features = false, features = ["std"] }
clap = "4"
include_dir = "0.7"
mavlink = { version = "*", default-features = false, features = ["std", "ardupilotmega"] }
mcap = "*"
regex = "1"
serde_json = "1"
serde_json5 = "*"
shellexpand = "3"
tokio = { version = "1", features = ["macros", "rt-multi-thread", "sync", "time"] }
tokio-graceful-shutdown = "*"
tokio-util = { version = "0.7", features = ["codec"] }
tracing = "0.1"
tracing-subscriber = { version = "0.3", features = ["env-filter"] }
zenoh = { version = "1", default-features = false, features = ["transport_tcp"] }
