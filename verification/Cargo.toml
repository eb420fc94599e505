[package]
name = "rasp_manager"
version = "0.1.0"
edition = "2021"
publish = false

[dependencies]
humantime = "2"
tide = "0.16"
async-std = { version = "1", features = ["attributes"] }
clap = "2"
serde = { version = "1", features = ["derive"] }
toml = "0.5"
libc = "0.2"
mnt = "*"
sys-info = "0.9"
libmedium = "*"
