[package]
name = "lan_share"
version = "0.1.0"
edition = "2021"
publish = false

[dependencies]
actix-files = "0.6"
actix-web = { version = "4", default-features = false, features = ["macros"] }
clap = { version = "4", features = ["derive"] }
env_logger = "*"
local-ip-address = "*"
log = "0.4"
mimalloc-rust = "*"
qrcode = { version = "*", default-features = false }
