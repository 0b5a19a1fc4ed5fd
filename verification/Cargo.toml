[package]
name = "dep_lifecycle"
version = "0.1.0"
edition = "2021"
publish = false

[dependencies]
tracing = "*"
testcontainers = { version = "*", features = ["blocking"] }
testcontainers-modules = { version = "*", features = ["redis"] }
