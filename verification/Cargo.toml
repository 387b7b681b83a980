[package]
name = "vcs"
version = "0.1.0"
edition = "2021"
publish = false

[dependencies]
sdl2 = { version = "0.37", features = ["mixer"] }
