[package]
name = "rfid_media_player"
version = "1.0.0"
edition = "2021"
publish = false

[dependencies]
serde_yaml = "0.8"
clap = "2.33"
flexi_logger = "0.17"
log = "0.4"
signal-hook = "0.3"
rusb = "0.8"
rodio = { version = "0.13", default-features = false, features = ["wav", "flac"] }
