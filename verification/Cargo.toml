[package]
name = "consul_online"
version = "0.1.0"
edition = "2021"
publish = false

[dependencies]
clap = { version = "3", features = ["derive"] }
env_logger = "0.9"
log = "0.4"
pem = "1"
rustls = { version = "0.20", features = ["dangerous_configuration"] }
ureq = "=2.6.2"
webpki = "0.22"
webpki-roots = "0.22"
