[package]
name = "wardenclyffe"
version = "0.1.0"
edition = "2021"
publish = false

[dependencies]
android_logger = "0.13"
anyhow = "1"
clap = { version = "4", features = ["derive"] }
futures-util = { version = "0.3", features = ["sink"] }
hyper = { version = "0.14", features = ["http1", "http2", "server", "tcp", "runtime"] }
include_dir = "0.7"
log = "0.4"
rcgen = "0.11"
rustls = "0.21"
rustls-pemfile = "1"
serde = { version = "1", features = ["derive"] }
serde_json = "1"
tokio = { version = "1", features = ["rt-multi-thread", "macros", "net"] }
tokio-rustls = "0.24"
tokio-tungstenite = "0.20"
tungstenite = "0.20"
