[package]
name = "monsgeek_profile_switcher"
version = "0.1.0"
edition = "2021"
publish = false

[dependencies]
hidapi = { version = "2.6", default-features = false, features = ["linux-native-basic-udev"] }
log = "0.4"
env_logger = "0.11"
dotenvy = "0.15"
eframe = { version = "0.29", default-features = false, features = ["glow", "x11", "default_fonts"] }
