[package]
name = "ogage"
version = "0.1.0"
edition = "2021"
publish = false

[dependencies]
evdev-rs = "*"
mio = { version = "1", features = ["os-poll", "os-ext"] }
