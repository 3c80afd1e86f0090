[package]
name = "codex_strict_images"
version = "0.1.0"
edition = "2021"
publish = false

[dependencies]
base64 = "0.22"
thiserror = "2"
