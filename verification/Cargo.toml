[package]
name = "liana_gui"
version = "0.1.0"
edition = "2021"
publish = false

[dependencies]
iced = { version = "0.7", default-features = false, features = ["glow"] }
iced_lazy = "0.4"
liana = { version = "2", features = ["nonblocking_shutdown"] }
tracing = "0.1"
