[package]
name = "pake-online"
version = "0.1.0"
edition = "2021"
publish = false

[dependencies]
serde = { version = "1", features = ["derive"] }
serde_json = "1"
sha2 = "0.10"
url = "2"
zip = { version = "2", default-features = false, features = ["deflate"] }
tokio = { version = "1", features = ["rt", "time"] }
reqwest = { version = "0.12", default-features = false, features = ["rustls-tls"] }
windows-sys = { version = "0.59", features = ["Win32_UI_Shell"] }
