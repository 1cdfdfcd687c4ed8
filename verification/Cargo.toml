[package]
name = "ss"
version = "0.1.0"
edition = "2021"
publish = false

[dependencies]
anyhow = "=1.0.104"
byteorder = "=1.5.0"
bytes = "=1.12.1"
env_logger = "=0.8.4"
futures = "=0.3.34"
futures-util = "=0.3.34"
http = "=0.2.12"
log = "=0.4.34"
pin-project = "=1.1.13"
rustls = "=0.19.1"
rustls-pemfile = "=0.2.1"
structopt = "=0.3.26"
thiserror = "=1.0.69"
tokio = { version = "=1.54.1", features = ["full"] }
tokio-rustls = "=0.22.0"
tokio-tungstenite = { version = "=0.14.0", features = ["rustls-tls"] }
tower = { version = "=0.4.13", features = ["util"] }
url = "=2.5.8"
