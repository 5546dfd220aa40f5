[package]
name = "armcap"
version = "0.1.0"
edition = "2021"
publish = false

[dependencies]
spin = { version = "0.9", default-features = false, features = ["once"] }
libc = { version = "0.2", default-features = false }
