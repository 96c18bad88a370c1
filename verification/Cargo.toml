[package]
name = "fallbacksrc"
version = "0.1.0"
edition = "2021"
publish = false

[dependencies]
gstreamer = { version = "=0.18.8", features = ["v1_16"] }
gstreamer-base = { version = "=0.18.0", features = ["v1_16"] }
once_cell = "=1.21.4"
parking_lot = "=0.12.5"
