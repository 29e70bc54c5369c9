[package]
name = "lumina_video"
version = "0.1.0"
edition = "2021"
publish = false

[dependencies]
url = "=2.5.8"
hyper = { version = "=1.12.0", features = ["client", "http1"] }
http-body-util = "=0.1.5"
hyper-util = { version = "=0.1.21", features = ["client", "client-legacy", "http1", "tokio"] }
hyper-rustls = { version = "=0.27.10", default-features = false, features = ["http1", "ring", "native-tokio", "tls12", "webpki-tokio"] }
tokio = { version = "=1.54.1", features = ["rt", "rt-multi-thread"] }
crossbeam-channel = "=0.5.17"
drm-fourcc = "=2.2.0"
parking_lot = "=0.12.5"
tracing = "=0.1.44"
tracing-subscriber = { version = "=0.3.23", features = ["env-filter"] }
poll-promise = "=0.3.0"
