[package]
name = "solsafe"
version = "0.1.0"
edition = "2021"
publish = false

[dependencies]
solana-program = "=2.3.0"
sha3 = "=0.10.9"
ark-bn254 = "=0.6.0"
ark-ff = "=0.6.0"
ark-ec = "=0.6.0"
ark-groth16 = "=0.6.0"
ark-serialize = "=0.6.0"
anchor-lang = "=1.2.0"
anchor-spl = "=1.2.0"
