[package]
name = "rbxl_brs"
version = "1.0.0"
edition = "2021"
publish = false

[dependencies]
brickadia = "*"
clap = { version = "4", features = ["derive"] }
rbx_binary = "*"
rbx_dom_weak = "*"
