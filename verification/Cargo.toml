[package]
name = "spike"
version = "0.1.0"
edition = "2021"
publish = false

[dependencies]
matchit = "0.7"
http = "0.2"
touche = "*"
