[package]
name = "nobg"
version = "0.1.0"
edition = "2021"
publish = false

[dependencies]
directories = "=6.0.0"
image = "=0.25.10"
ort = { version = "=2.0.0-rc.13", default-features = false, features = ["std"] }
reqwest = { version = "=0.12.28", default-features = false, features = ["stream", "rustls-tls"] }
tokio = { version = "=1.53.2", features = ["rt", "macros", "fs", "io-util"] }
futures-util = { version = "=0.3.34", default-features = false }
