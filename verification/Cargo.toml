[package]
name = "globalprotect"
version = "0.1.0"
edition = "2021"
publish = false

[dependencies]
argon2 = "0.5"
base64 = "0.22"
chacha20poly1305 = "0.10"
directories = "5"
keyring = "3"
pem = "3"
png = "0.17"
serde = { version = "1", features = ["derive"] }
serde_json = "1"
