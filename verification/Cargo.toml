[package]
name = "openless_remote"
version = "0.1.0"
edition = "2021"
publish = false

[dependencies]
arboard = { version = "3", default-features = false }
chrono = "0.4"
clap = { version = "4", features = ["derive"] }
dbus = { version = "0.9", features = ["vendored"] }
fs2 = "0.4"
futures-util = { version = "0.3", features = ["sink"] }
local-ip-address = "0.6"
log = "0.4"
serde = { version = "1", features = ["derive"] }
serde_json = "1"
tokio = { version = "1", features = ["full"] }
tokio-tungstenite = "0.26"
tungstenite = "0.26"
uuid = { version = "1", features = ["v4"] }
