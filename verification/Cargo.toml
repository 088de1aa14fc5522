[package]
name = "dory_pcs"
version = "0.1.0"
edition = "2021"
publish = false

[dependencies]
ark-bn254 = "=0.5.0"
ark-ff = "=0.5.0"
sha2 = "=0.10.9"
hex = "=0.4.3"
lz4_flex = "=0.11.6"
serde = { version = "=1.0.229", features = ["derive"] }
memmap2 = "0.9"
