[package]
name = "mongo_newrelic"
version = "0.1.0"
edition = "2021"
publish = false

[dependencies]
bson = "=2.15.0"
mongodb = { version = "=3.9.1", features = ["sync"] }
toml = "=1.1.6"
serde = { version = "=1.0.229", features = ["derive"] }
serde_json = "=1.0.151"
hyper = { version = "=1.11.1", features = ["client", "http1"] }
http-body-util = "=0.1.5"
hyper-util = { version = "=0.1.21", features = ["client-legacy", "http1", "tokio"] }
tokio = { version = "=1.53.2", features = ["rt", "net"] }
