[package]
name = "img_annotator"
version = "0.1.0"
edition = "2021"
publish = false

[dependencies]
iced_native = "=0.10.3"
rfd = { version = "0.11", default-features = false }
serde = { version = "1", features = ["derive"] }
serde_json = "1"
