[package]
name = "dlib_face_recognition"
version = "0.3.2"
edition = "2021"
publish = false

[dependencies]
image = { version = "=0.24.9", default-features = false }
cpp = "=0.5.11"
reqwest = { version = "=0.11.27", default-features = false, features = ["blocking"] }
bzip2 = "=0.6.1"
opencv = "=0.101.1"
