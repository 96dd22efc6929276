[package]
name = "reticle"
version = "0.1.0"
edition = "2021"
publish = false

[dependencies]
embedded-graphics = "0.6"
tinytga = "0.3"
