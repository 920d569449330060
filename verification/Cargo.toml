[package]
name = "linmic"
version = "0.3.0"
edition = "2021"
publish = false

[dependencies]
chacha20poly1305 = "=0.10.1"
sha2 = "=0.10.9"
hmac = "=0.12.1"
spake2 = "=0.4.0"
curve25519-dalek = "=4.1.3"
hex = "=0.4.3"
rand = "=0.8.8"
zeroize = "=1.9.1"
anyhow = "=1.0.104"
clap = { version = "=4.6.7", features = ["derive"] }
ctrlc = "=3.5.2"
rustls = { version = "=0.23.46", default-features = false, features = ["ring", "std", "tls12", "logging"] }
rcgen = "=0.13.2"
mdns-sd = "=0.21.7"
serde = { version = "=1.0.229", features = ["derive"] }
serde_json = "=1.0.154"
toml = "=0.8.23"
rtrb = "=0.3.6"
libc = "=0.2.191"
ksni = { version = "=0.3.7", features = ["blocking"] }
zbus = "=5.19.0"
