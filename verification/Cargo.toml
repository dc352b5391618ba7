[package]
name = "emu_8080"
version = "0.1.0"
edition = "2021"
publish = false

[dependencies]
log = "0.4"
env_logger = "*"
sdl2 = { version = "*", features = ["mixer"] }
