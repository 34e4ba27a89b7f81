[package]
name = "vaultmaid"
version = "0.1.0"
edition = "2021"
publish = false

[dependencies]
aes-gcm = "0.10"
argon2 = "0.5"
base64 = "0.22"
dark-light = "1"
dirs = "6"
iced = { version = "0.14", default-features = false, features = ["tiny-skia", "tokio", "x11"] }
keyring = "3"
open = "5"
reqwest = { version = "0.12", default-features = false, features = ["json"] }
rusqlite = { version = "0.32", features = ["bundled"] }
serde = { version = "1", features = ["derive"] }
serde_json = "1"
sha2 = "0.10"
thiserror = "2"
tokio = { version = "1", features = ["rt", "time"] }
toml = "0.8"
tracing = "0.1"
tracing-subscriber = { version = "0.3", default-features = false, features = ["fmt"] }
url = "2"
uuid = { version = "1", features = ["v4"] }
zeroize = "1"
