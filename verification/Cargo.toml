[package]
name = "snake_game"
version = "0.1.0"
edition = "2021"
publish = false

[dependencies]
rand = "0.8"
piston_window = "0.120.0"
rodio = { version = "0.17", default-features = false, features = ["wav"] }
find_folder = "0.3"
