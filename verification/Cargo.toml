[package]
name = "thor"
version = "0.1.0"
edition = "2021"
publish = false

[dependencies]
conrod = { version = "=0.61.1", default-features = false }
find_folder = "0.3"
websocket = { version = "*", default-features = false, features = ["sync"] }
