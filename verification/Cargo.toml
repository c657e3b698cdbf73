[package]
name = "credential_cipher"
version = "0.1.0"
edition = "2021"
publish = false

[dependencies]
aes-gcm = "0.10"
base64 = "0.22"
keyring = "2"
rand = "0.8"
serde_json = "1"
sha2 = "0.10"
