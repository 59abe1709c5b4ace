[package]
name = "ftls"
version = "0.1.0"
edition = "2021"
publish = false

[dependencies]
uuid = { version = "1", features = ["v4"] }
rustls-pki-types = { version = "1", features = ["std"] }
anyhow = "1"
bytes = "1"
clap = { version = "4", features = ["derive"] }
fast-socks5 = "*"
futures = "0.3"
hickory-resolver = "*"
postcard = { version = "1", features = ["use-std"] }
serde = { version = "1", features = ["derive"] }
thiserror = "2"
tokio = { version = "1", features = ["full"] }
tokio-rustls = "*"
tokio-util = { version = "0.7", features = ["codec"] }
tracing = "0.1"
tracing-forest = "*"
tracing-subscriber = { version = "0.3", features = ["env-filter"] }
webpki-roots = "*"
tun = { version = "*", features = ["async"] }
