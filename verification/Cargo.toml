[package]
name = "wsforwarder"
version = "0.1.0"
edition = "2021"
publish = false

[dependencies]
actix = "=0.7.9"
actix-web = "=0.7.19"
base64 = "=0.10.1"
chrono = "=0.4.45"
env_logger = "=0.5.13"
futures = "=0.1.31"
log = "=0.4.35"
openssl-probe = "=0.1.6"
serde = "=1.0.229"
serde_derive = "=1.0.229"
serde_json = "=1.0.154"
url = "2"
