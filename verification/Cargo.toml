[package]
name = "winit"
version = "0.1.0"
edition = "2021"
publish = false

[dependencies]
calloop = "0.7"
smithay-client-toolkit = "0.12"
