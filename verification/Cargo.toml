[package]
name = "kalive"
version = "0.1.0"
edition = "2021"
publish = false

[dependencies]
strsim = "=0.11.1"
rand = "=0.8.8"
smol = "=2.0.2"
anyhow = "=1.0.104"

[dev-dependencies]
bincode = "=1.3.3"
pnet_packet = "=0.35.0"
