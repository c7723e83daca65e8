[package]
name = "campaign_treasury_manager"
version = "0.1.0"
edition = "2021"
publish = false

[dependencies]
anchor-lang = "0.28.0"
anchor-spl = "0.28.0"
bytemuck = "1"
solana-program = "1.16"
solana-security-txt = "1"
spl-associated-token-account = { version = "1.1", features = ["no-entrypoint"] }
spl-token = { version = "3.5", features = ["no-entrypoint"] }
