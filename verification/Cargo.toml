[package]
name = "yacen_core"
version = "0.1.0"
edition = "2021"
publish = false

[dependencies]
aes-gcm = "0.10"
pbkdf2 = "0.12"
sha2 = "0.10"
ring = "0.17"
ed25519-dalek = { version = "2", features = ["rand_core"] }
prost = { version = "0.13", default-features = false, features = ["std"] }
tonic = { version = "0.12", default-features = false }
bincode = { version = "2", features = ["serde"] }
serde = { version = "1", features = ["derive"] }
thiserror = "1"
ecies = "0.2"

[dev-dependencies]
rand = "0.8"
