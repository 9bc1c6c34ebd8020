[package]
name = "aerobase"
version = "0.1.0"
edition = "2021"
publish = false

[dependencies]
aes-gcm = "0.10"
base64 = "0.22"
chrono = "0.4"
geo = "*"
machine-uid = "*"
pbkdf2 = "0.12"
r2d2 = "0.8"
r2d2_sqlite = "*"
rand = "0.8"
rsa = "0.9"
rstar = "*"
rusqlite = { version = "*", features = ["bundled"] }
serde = { version = "1", features = ["derive"] }
serde_json = "1"
sha2 = "0.10"
sysinfo = "*"
thiserror = "1"
uuid = { version = "1", features = ["v4"] }
zeroize = "1"
