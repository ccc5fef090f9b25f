[package]
name = "slab_bonding"
version = "0.1.0"
edition = "2021"
publish = false

[dependencies]
anchor-lang = "=0.31.2"
anchor-spl = "=0.31.2"
solana-program = "=2.3.0"
