[package]
name = "razer_hid"
version = "0.1.0"
edition = "2021"
publish = false

[dependencies]
hidapi = { version = "=2.6.7", default-features = false, features = ["linux-native-basic-udev"] }
clap = "=4.6.7"
env_logger = "=0.11.11"
log = "=0.4.34"
hex = "=0.4.3"
