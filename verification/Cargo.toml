[package]
name = "daymatter_astrobox_v2_plugin"
version = "0.1.0"
edition = "2021"
publish = false

[dependencies]
serde_json = "1.0"
tracing = "0.1"
wit-bindgen = "0.47.0"
