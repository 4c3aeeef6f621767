[package]
name = "ddgo_pnp_controller"
version = "0.1.0"
edition = "2021"
publish = false

[dependencies]
evdev = "*"
