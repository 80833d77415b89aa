[package]
name = "betterdisplay-kvm"
version = "0.1.0"
edition = "2021"
publish = false

[dependencies]
anyhow = "1"
clap = { version = "4", features = ["derive"] }
config = { version = "*", default-features = false, features = ["toml"] }
dirs = "*"
flexi_logger = "*"
futures-lite = "2"
log = "0.4"
nusb = "0.2"
serde = { version = "1", features = ["derive"] }
serialport = { version = "4", default-features = false }
toml = "*"
