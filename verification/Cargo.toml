[package]
name = "authgate"
version = "0.1.0"
edition = "2021"
publish = false

[dependencies]
actix-web = "4"
awc = "3"
serde_json = "=1.0.151"
rsa = "=0.9.10"
sha2 = { version = "0.10", features = ["oid"] }
x509-parser = "=0.18.1"
