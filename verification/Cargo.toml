[package]
name = "gameboy_core"
version = "0.1.0"
edition = "2021"
publish = false

[dependencies]
byteorder = "1"
sdl2 = "0.35"
spin_sleep = "1.1"
