[package]
name = "pastewatch"
version = "0.1.0"
edition = "2021"
publish = false

[dependencies]
regex = "=1.13.1"
url = "=2.5.8"
image = { version = "=0.25.10", default-features = false, features = ["png", "jpeg", "tiff"] }
serde = { version = "*", features = ["derive"] }
serde_json = "*"
reqwest = { version = "*", default-features = false, features = ["rustls-tls"] }
tokio = { version = "*", features = ["macros", "rt-multi-thread"] }
serenity = "*"
leptess = "*"
