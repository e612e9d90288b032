[package]
name = "pg_sdl"
version = "0.1.0"
edition = "2021"
publish = false

[dependencies]
sdl2 = { version = "=0.36.0", features = ["gfx", "ttf"] }
nalgebra = "=0.32.6"
itertools = "=0.15.0"
fontdue = "=0.8.0"
fontdue-sdl2 = "=0.3.1"
as-any = "=0.3.2"
