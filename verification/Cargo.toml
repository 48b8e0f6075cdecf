[package]
name = "upload_pipeline"
version = "0.1.0"
edition = "2021"
publish = false

[dependencies]
multipart = "*"
rocket = "*"
tempfile = "*"
tizol = "*"
