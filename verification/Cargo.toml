[package]
name = "orb_sound"
version = "0.1.0"
edition = "2021"
publish = false

[dependencies]
rtrb = "*"
rodio = { version = "0.17", default-features = false, features = ["wav"] }
