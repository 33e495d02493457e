[package]
name = "stream_core"
version = "0.1.0"
edition = "2021"
publish = false

[dependencies]
anyhow = "*"
clap = { version = "*", features = ["cargo"] }
strum = "*"
strum_macros = "*"
