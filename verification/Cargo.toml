[package]
name = "imdrip"
version = "0.1.0"
edition = "2021"
publish = false

[dependencies]
image = "*"
gl = "*"
glfw = "*"
reqwest = { version = "*", default-features = false, features = ["blocking", "rustls-tls"] }
