[package]
name = "clink"
version = "0.1.0"
edition = "2021"
publish = false

[dependencies]
http = "0.2"
isahc = { version = "1", features = ["json"] }
rpassword = "7"
serde = { version = "1", features = ["derive"] }
serde_json = "1"
url = "2"
users = "0.11"
