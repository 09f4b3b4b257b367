[package]
name = "hactool_rs"
version = "0.1.0"
edition = "2021"
publish = false

[dependencies]
aes = "0.8"
xts-mode = "0.5"
rsa = "0.9"
sha2 = "0.10"
signature = "2"
hex = "0.4"
clap = { version = "4", features = ["derive"] }
dirs = "*"
anyhow = "1"
memmap = "0.7"

[dev-dependencies]
rand = "0.8"
