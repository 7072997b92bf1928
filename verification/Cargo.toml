[package]
name = "player_core"
version = "0.1.0"
edition = "2021"
publish = false

[dependencies]
realfft = "=3.5.0"
rand = "=0.10.3"
rspotify = { version = "=0.16.1", default-features = false, features = ["client-ureq"] }
