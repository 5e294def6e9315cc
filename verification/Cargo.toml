[package]
name = "my_home"
version = "0.1.0"
edition = "2021"
publish = false

[dependencies]
lifx-core = "*"
base64ct = { version = "1", features = ["alloc"] }
ed25519-dalek = "2"
uuid = { version = "1", features = ["v4"] }
mqtt-protocol = "*"
embedded-hal = "0.2"
rppal = { version = "*", features = ["hal"] }
embedded-graphics = "0.8"
embedded-layout = "*"
pid-lite = "*"
tokio = { version = "1", features = ["rt-multi-thread", "macros", "net", "time", "sync"] }
serde = { version = "1", features = ["derive"] }
serde_json = "1"
log = "0.4"
env_logger = "*"
thiserror = "*"
