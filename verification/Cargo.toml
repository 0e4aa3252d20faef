[package]
name = "template_build"
version = "0.1.0"
edition = "2021"
publish = false

[dependencies]
regex = "1"
zip-extract = "*"
dotenv = "0.15"
