[package]
name = "leptoaster"
version = "0.1.0"
edition = "2021"
publish = false

[dependencies]
leptos = { version = "0.7", default-features = false }
gloo-timers = { version = "0.3", features = ["futures"] }
