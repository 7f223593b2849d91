[package]
name = "protoc_fetcher"
version = "0.1.0"
edition = "2021"
publish = false

[dependencies]
anyhow = "1"
reqwest = { version = "0.12", features = ["blocking"] }
zip-extract = "*"
