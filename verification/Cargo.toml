[package]
name = "frontend_cli"
version = "0.1.0"
edition = "2021"
publish = false

[dependencies]
dotenv = "=0.15.0"
reqwest = { version = "=0.12.28", default-features = false, features = ["blocking"] }
rfd = "=0.14.1"
