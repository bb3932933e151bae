[package]
name = "nexigon"
version = "0.1.0"
edition = "2021"
publish = false

[dependencies]
anyhow = "=1.0.104"
bytes = "=1.12.1"
futures = "=0.3.34"
jiff = "=0.2.38"
parking_lot = "=0.12.5"
rand = "=0.9.5"
rcgen = "0.13"
rustls = "0.23"
rustls-native-certs = "0.8"
serde = { version = "=1.0.229", features = ["derive"] }
serde_json = "=1.0.154"
sha1 = "=0.10.7"
sha2 = "=0.10.9"
thiserror = "=2.0.21"
tokio = { version = "=1.54.1", features = ["time", "io-util", "macros", "rt", "net"] }
tokio-tungstenite = { version = "*", features = ["rustls-tls-native-roots"] }
tracing = "=0.1.44"
url = "2"
urlencoding = "2"
x509-cert = { version = "=0.2.5", features = ["pem"] }
