[package]
name = "character_control"
version = "0.1.0"
edition = "2021"
publish = false

[dependencies]
config = "0.11"
serde = "1"
serde_derive = "1"
