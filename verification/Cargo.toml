[package]
name = "koloda"
version = "0.1.0"
edition = "2021"
publish = false

[dependencies]
keyring = { version = "=3.6.3", features = ["apple-native", "windows-native"] }
serde = { version = "=1.0.229", features = ["derive"] }
serde_json = "=1.0.151"
dirs = "=7.0.0"
chrono = "=0.4.45"
windows-sys = { version = "*", features = ["Win32_Foundation", "Win32_Security_Credentials"] }
