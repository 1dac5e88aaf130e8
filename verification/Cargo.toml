[package]
name = "rs_uploader"
version = "0.1.0"
edition = "2021"
publish = false

[dependencies]
chrono = "=0.4.45"
clap = { version = "=3.2.25", features = ["derive"] }
clipboard = "=0.5.0"
load-dotenv = "=0.1.2"
mime_guess = "=2.0.5"
nanoid = "=0.4.0"
notify = "=4.0.18"
notify-rust = "=4.18.2"
rust-s3 = { version = "=0.28.1", default-features = false, features = ["sync"] }
tray-item = "=0.7.1"
