[package]
name = "schmu"
version = "0.1.0"
edition = "2021"
publish = false

[dependencies]
anyhow = "=1.0.104"
axum = { version = "=0.8.9", features = ["ws"] }
clap = { version = "=4.6.7", features = ["derive"] }
dirs = "=7.0.0"
futures-util = "=0.3.34"
image = { version = "=0.25.10", default-features = false, features = ["jpeg", "png", "webp"] }
libmpv2 = "=6.0.0"
log = "=0.4.34"
qrcode = { version = "=0.14.1", default-features = false }
rand = "=0.8.8"
raylib = "=5.5.1"
reqwest = { version = "=0.12.28", features = ["blocking", "json"] }
serde = { version = "=1.0.229", features = ["derive"] }
serde_json = "=1.0.154"
tokio = { version = "=1.54.1", features = ["macros", "net", "rt-multi-thread", "sync"] }
tungstenite = { version = "=0.30.0", features = ["native-tls"] }
ytmapi-rs = "=0.3.3"
