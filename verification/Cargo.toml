[package]
name = "ureq"
version = "0.1.0"
edition = "2021"
publish = false

[dependencies]
http = "1"
hoot = "*"
thiserror = "1"
serde = "1"
serde_json = "1"
rustls = { version = "*", default-features = false, features = ["std"] }
rustls-pemfile = "*"
native-tls = "0.2"
der = "0.7"
cookie_store = "*"
