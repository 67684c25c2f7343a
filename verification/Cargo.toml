[package]
name = "mock_event_source"
version = "0.1.0"
edition = "2021"
publish = false

[dependencies]
num-derive = "0.4"
num-traits = "0.2"
rand = "0.8"
rocket = { version = "0.5", features = ["json"] }
