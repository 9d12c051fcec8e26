[package]
name = "adapta"
version = "0.0.2"
edition = "2021"
publish = false

[dependencies]
pin-project-lite = "0.2"
tower-layer = "0.3"
tower-service = "0.3"
