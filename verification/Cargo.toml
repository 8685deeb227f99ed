[package]
name = "lastlayer"
version = "0.1.0"
edition = "2021"
publish = false

[dependencies]
chrono = "*"
handlebars = "*"
serde = { version = "*", features = ["derive"] }
