[package]
name = "ifunny-basic"
version = "0.1.0"
edition = "2021"
publish = false

[dependencies]
clap = { version = "*", features = ["derive"] }
easy_base64 = "*"
sha1_smol = "*"
sha256 = { version = "*", default-features = false }
uuid = { version = "*", features = ["v4"] }
