[package]
name = "bluez-monitor"
version = "0.1.0"
edition = "2021"
publish = false

[dependencies]
async-stream = "0.3"
async-trait = "0.1"
bluer = { version = "0.16", features = ["bluetoothd", "serde"] }
dbus = { version = "0.9", features = ["vendored"] }
dirs = "5"
env_logger = "0.10"
futures-util = "0.3"
hostname = "0.3"
hyper = { version = "0.14", features = ["full"] }
log = "0.4"
prometheus = "0.13"
prost = "0.11"
prost-types = "0.11"
reqwest = "0.11"
serde = { version = "1", features = ["derive"] }
serde_json = "1"
snap = "1"
thiserror = "1"
tokio = { version = "1", features = ["full"] }
toml = "0.7"
