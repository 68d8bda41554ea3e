[package]
name = "typst_scan"
version = "0.1.0"
edition = "2021"
publish = false

[dependencies]
tex2typst-rs = "*"
uuid = { version = "*", features = ["v4"] }
reqwest = { version = "*", default-features = false, features = ["blocking", "multipart", "rustls-tls", "json"] }
arboard = "*"
serde = { version = "*", features = ["derive"] }
serde_json = "*"
chrono = "*"
