[package]
name = "game_of_life"
version = "0.1.0"
edition = "2021"
publish = false

[dependencies]
rand = "0.8"
rand_chacha = "0.3"
windows-sys = { version = "0.52", features = ["Win32_Foundation", "Win32_System_Console"] }
