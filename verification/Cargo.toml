[package]
name = "enet_mqtt"
version = "0.1.0"
edition = "2021"
publish = false

[dependencies]
matchit = "0.4"
enet-client = "*"
paho-mqtt = "*"
eventuals = "*"
async-stream = "0.3"
futures = "0.3"
tokio = { version = "1", features = ["macros", "rt-multi-thread", "sync"] }
serde_json = "1"
tracing = "0.1"
tracing-subscriber = { version = "0.3", features = ["env-filter", "json"] }
color-eyre = "0.6"
clap = { version = "4", features = ["derive", "env"] }
