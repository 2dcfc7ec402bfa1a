[package]
name = "zk_login"
version = "0.1.0"
edition = "2021"
publish = false

[dependencies]
groth16-solana = "=0.0.3"
anchor-lang = "0.30.1"

[dev-dependencies]
ark-bn254 = "0.4.0"
ark-ec = "0.4.2"
ark-ff = "0.4.2"
ark-serialize = "0.4.2"
