[package]
name = "bevy_2dviewangle"
version = "0.1.0"
edition = "2021"
publish = false

[dependencies]
xxhash-rust = { version = "=0.8.19", features = ["xxh3"] }
syn = "=2.0.119"
quote = "=1.0.47"
proc-macro2 = "=1.0.107"
bevy = { version = "=0.17.3", default-features = false, features = ["std", "bevy_asset", "bevy_sprite", "bevy_state"] }
