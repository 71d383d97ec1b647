[package]
name = "kira"
version = "0.1.0"
edition = "2021"
publish = false

[dependencies]
atomic-arena = "0.1"
ringbuf = "0.2"
symphonia = "0.5"
mlua = { version = "0.9", default-features = false, features = ["lua54", "vendored"] }
