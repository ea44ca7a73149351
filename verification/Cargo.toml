[package]
name = "tsunagu"
version = "0.1.0"
edition = "2021"
publish = false

[dependencies]
anyhow = "1"
async-trait = "0.1"
base64 = "=0.21.7"
clap = { version = "4", features = ["derive"] }
config = "0.13"
gethostname = "=0.4.3"
local-ip-address = "=0.5.7"
mdns-sd = "=0.10.5"
ring = "=0.17.14"
serde = { version = "1", features = ["derive"] }
serde_json = "1"
thiserror = "1"
tokio = { version = "1", features = ["rt-multi-thread", "macros", "signal", "time", "sync", "net", "io-util", "fs"] }
tracing = "0.1"
tracing-subscriber = "0.3"
uuid = { version = "=1.29.0", features = ["v4"] }
