[package]
name = "amqp_link_state"
version = "0.1.0"
edition = "2021"
publish = false

[dependencies]
fe2o3-amqp-types = "*"
parking_lot = "0.12"
tokio = { version = "1", default-features = false, features = ["sync"] }
uuid = { version = "1", features = ["v4"] }
