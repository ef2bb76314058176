[package]
name = "autologinguet"
version = "0.1.0"
edition = "2021"
publish = false

[dependencies]
urlencoding = "2"
reqwest = { version = "0.12", default-features = false, features = ["cookies"] }
tokio = { version = "1", features = ["rt-multi-thread", "macros", "time"] }
chrono = "0.4"
notify-rust = "4"
toml = "*"
serde = { version = "1", features = ["derive"] }
base64 = "0.22"
sha2 = "0.10"
aes = "0.8"
cbc = "0.1"
rand = "0.9"
md5 = "0.7"
regex = "1"
