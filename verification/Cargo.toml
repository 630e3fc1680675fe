[package]
name = "poor_locker"
version = "0.1.0"
edition = "2021"
publish = false

[dependencies]
async-trait = "0.1"
chrono = "0.4"
futures = "0.3"
rusoto_core = { version = "0.45", default-features = false, features = ["rustls"] }
rusoto_dynamodb = { version = "0.45", default-features = false, features = ["rustls"] }
tokio = { version = "0.2", features = ["time"] }
