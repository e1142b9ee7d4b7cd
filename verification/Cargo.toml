[package]
name = "mqtt_transport"
version = "0.1.0"
edition = "2021"
publish = false

[dependencies]
tokio = { version = "*", features = ["net", "rt", "rt-multi-thread", "io-util", "macros", "time"] }
tokio-rustls = { version = "*", default-features = false, features = ["ring", "tls12"] }
rustls-pemfile = "*"
