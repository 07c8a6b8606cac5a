[package]
name = "knative-chaining"
version = "0.1.0"
edition = "2021"
publish = false

[dependencies]
cloudevents-sdk = { version = "0.7", features = ["reqwest", "warp"] }
reqwest = { version = "0.11", default-features = false, features = ["rustls-tls"] }
serde_json = "1"
tokio = { version = "1", features = ["macros", "rt-multi-thread"] }
warp = "0.3"
