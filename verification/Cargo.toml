[package]
name = "asr"
version = "0.1.0"
edition = "2021"
publish = false

[dependencies]
livesplit-auto-splitting = "*"
