[package]
name = "rippling_client"
version = "0.1.0"
edition = "2021"
publish = false

[dependencies]
url = "*"
serde = { version = "*", features = ["derive"] }
serde_json = "*"
attohttpc = { version = "*", default-features = false, features = ["json"] }
time = { version = "*", features = ["serde-human-readable", "macros"] }
