[package]
name = "twilight_interaction"
version = "0.1.0"
edition = "2021"
publish = false

[dependencies]
ed25519-dalek = "=1.0.1"
twilight-model = "0.6"
twilight-http = "0.6"
http = "=0.2.12"
serde_json = "=1.0.151"
thiserror = "=1.0.69"

[dev-dependencies]
hex = "=0.4.3"
