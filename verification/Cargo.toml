[package]
name = "term_settings"
version = "0.1.0"
edition = "2021"
publish = false

[dependencies]
alacritty_terminal = "=0.26.0"
iced_core = "=0.14.0"
iced = { version = "=0.14.0", default-features = false, features = ["thread-pool", "tiny-skia", "wayland"] }

[dev-dependencies]
polling = "=3.11.0"
