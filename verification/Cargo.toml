[package]
name = "petstore_api"
version = "0.1.0"
edition = "2021"
publish = false

[dependencies]
chrono = { version = "=0.4.45", features = ["serde"] }
serde = { version = "=1.0.229", features = ["derive"] }
serde-xml-rs = "=0.8.2"
hyper = { version = "=0.14.32", features = ["full"] }
futures = "=0.3.34"
async-trait = "=0.1.92"
swagger = "=6.5.3"
