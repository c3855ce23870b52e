[package]
name = "video_poker_core"
version = "0.1.0"
edition = "2021"
publish = false

[dependencies]
rand = "*"
dialoguer = "*"
