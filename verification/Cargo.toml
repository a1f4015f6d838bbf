[package]
name = "mailsync"
version = "0.1.0"
edition = "2021"
publish = false

[dependencies]
base64 = "*"
chrono = "*"
mailparse = "*"
async-imap = "*"
futures-util = "*"
tokio = { version = "*", features = ["full"] }
tokio-util = { version = "*", features = ["compat"] }
tokio-native-tls = "*"
native-tls = "*"
lettre = "*"
