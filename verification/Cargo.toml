[package]
name = "archive_recognition_rs"
version = "0.1.0"
edition = "2021"
publish = false

[dependencies]
dlib-face-recognition = "*"
image = "*"
