[package]
name = "solana_cpmm_program"
version = "0.1.0"
edition = "2021"
publish = false

[dependencies]
solana-program = "=5.2.0"
solana-address = "=2.9.0"
solana-program-pack = "=3.1.0"
spl-token-interface = "=3.0.0"
spl-associated-token-account-interface = "=2.0.0"
solana-sdk-ids = "=3.1.0"

[dev-dependencies]
borsh = "=1.8.1"
