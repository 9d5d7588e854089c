[package]
name = "last_value_cell"
version = "0.1.0"
edition = "2021"
publish = false

[dependencies]
opentelemetry_api = { version = "0.18", features = ["metrics"] }
