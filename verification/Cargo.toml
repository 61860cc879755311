[package]
name = "chip8"
version = "0.1.0"
edition = "2021"
publish = false

[dependencies]
bitvec = "1"
fastrand = "2"
smallvec = "1"
lexopt = "0.3"
termion = "2"
minifb = "*"
rodio = { version = "0.17", default-features = false }
