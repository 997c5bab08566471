[package]
name = "slink"
version = "0.1.0"
edition = "2021"
publish = false

[dependencies]
async-trait = "=0.1.92"
bollard = "=0.21.1"
bytes = "=1.12.1"
bytesize = "=2.7.0"
futures = "=0.3.34"
orion = "=0.18.0"
serde = { version = "=1.0.229", features = ["derive"] }
serde-java-properties = "=0.2.0"
tokio = { version = "=1.53.2", features = ["fs", "io-util"] }
uuid = { version = "=1.27.0", features = ["v4"] }
