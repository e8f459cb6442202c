[package]
name = "sip_transport"
version = "0.1.0"
edition = "2021"
publish = false

[dependencies]
audio-codec-algorithms = "=0.8.1"
bytes = "=1.12.1"
crossbeam-channel = "=0.5.17"
rand = "=0.9.5"
rsip = "=0.4.0"
rsipstack = { version = "=0.7.14", default-features = false, features = ["platform-tokio"] }
rtp = "=0.17.2"
tokio = { version = "=1.54.1", features = ["macros", "net", "rt-multi-thread", "sync", "time"] }
tokio-util = "=0.7.20"
tracing = "=0.1.44"
webrtc-util = { version = "=0.17.2", default-features = false, features = ["marshal"] }
