[package]
name = "bitcoin"
version = "0.1.0"
edition = "2021"
publish = false

[dependencies]
bincode = "=2.0.1"
futures = "=0.3.34"
rand = "=0.10.3"
serde = { version = "=1.0.229", features = ["derive"] }
sha2 = "=0.11.0"
tokio = { version = "=1.53.2", features = ["full"] }
tokio-serde = { version = "=0.9.0", features = ["json"] }
tokio-util = { version = "=0.7.19", features = ["codec"] }
