[package]
name = "graphql_boundary"
version = "0.1.0"
edition = "2021"
publish = false

[dependencies]
http = "=1.5.0"
poem = "=3.1.12"
serde = "=1.0.229"
serde_json = { version = "=1.0.154", features = ["raw_value"] }
