[package]
name = "gpui_squircle"
version = "0.1.0"
edition = "2021"
publish = false

[dependencies]
figma_squircle = "=0.1.0"
lyon = { version = "=1.0.19", features = ["extra"] }
