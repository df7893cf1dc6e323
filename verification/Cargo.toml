[package]
name = "colour_previewer"
version = "0.1.0"
edition = "2021"
publish = false

[dependencies]
clap = "2"
crc32fast = "1"
rand = "0.8"
tokio = { version = "1", features = ["macros", "rt-multi-thread"] }
warp = { version = "0.3", default-features = false }
