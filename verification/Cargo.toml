[package]
name = "getso"
version = "1.0.0"
edition = "2021"
publish = false

[dependencies]
ansi_term = "*"
clap = "*"
native-tls = "*"
openssl = "*"
serde = "*"
serde_derive = "*"
serde_json = "*"
