[package]
name = "bass_haptics"
version = "0.1.0"
edition = "2021"
publish = false

[dependencies]
tokio = { version = "=1.54.1", features = ["rt", "rt-multi-thread", "sync", "time", "macros"] }
rustfft = "=6.4.1"
buttplug = { version = "=4.0.4", default-features = false, features = ["client", "serialize-json", "websockets", "tokio-runtime"] }
futures = "=0.3.34"
log = "=0.4.34"
log4rs = "=1.4.0"
serde = { version = "=1.0.229", features = ["derive"] }
url = "=2.5.8"
tokio-tungstenite = "=0.16.1"
vst = "=0.3.0"
