[package]
name = "emu8080"
version = "0.1.0"
edition = "2021"
publish = false

[dependencies]
sdl2 = { version = "*", features = ["mixer"] }
spin_sleep = "*"
