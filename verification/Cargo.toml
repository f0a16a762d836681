[package]
name = "jelal"
version = "0.5.0"
edition = "2021"
publish = false

[dependencies]
time = "0.3"
