[package]
name = "hyper-proxy"
version = "0.6.0"
edition = "2021"
publish = false

[dependencies]
futures = "0.3"
http = "0.2"
hyper = "0.13"
native-tls = "0.2"
rustls-native-certs = "0.1"
tokio = { version = "0.2", features = ["io-util"] }
tokio-rustls = "0.12"
tokio-tls = "0.3"
typed-headers = "0.2"
webpki = "0.21"
