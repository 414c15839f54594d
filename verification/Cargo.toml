[package]
name = "shuffle_manager"
version = "0.1.0"
edition = "2021"
publish = false

[dependencies]
crossbeam = "0.7"
futures = "0.3"
hyper = "0.13"
log = "0.4"
rand = "0.7"
serde = { version = "1", features = ["derive"] }
thiserror = "1"
tokio = { version = "0.2", features = ["full"] }
uuid = { version = "0.8", features = ["v4"] }
