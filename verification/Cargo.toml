[package]
name = "destination"
version = "0.1.0"
edition = "2021"
publish = false

[dependencies]
http-body = "1"
indexmap = "2"
ipnet = "2"
tonic = { version = "0.12", default-features = false }
tracing = "0.1"
