[package]
name = "flamewm_wm_x11"
version = "0.1.0"
edition = "2021"
publish = false

[dependencies]
x11rb = { version = "=0.13.2", features = ["randr", "shape"] }
