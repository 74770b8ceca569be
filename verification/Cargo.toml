[package]
name = "waas"
version = "0.1.0"
edition = "2021"
publish = false

[dependencies]
base64 = "=0.22.1"
k256 = "=0.13.4"
rand = "=0.8.8"
rand_core = { version = "=0.6.4", features = ["getrandom"] }
futures-util = "=0.3.34"
poem = { version = "=3.1.12", features = ["session", "sse"] }
pwhash = "=1.0.0"
serde = { version = "=1.0.229", features = ["derive"] }
tokio = { version = "=1.53.2", features = ["macros", "rt-multi-thread", "time", "sync"] }
tracing-subscriber = "=0.3.23"
