[package]
name = "archery"
version = "0.1.0"
edition = "2021"
publish = false

[dependencies]
bevy = { version = "=0.14.2", default-features = false, features = ["bevy_state"] }
rand = "=0.8.5"
