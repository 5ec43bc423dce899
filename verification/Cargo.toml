[package]
name = "curve_amm"
version = "0.1.0"
edition = "2021"
publish = false

[dependencies]
pinocchio = "*"
pinocchio-pubkey = "*"
pinocchio-system = "*"
pinocchio-token = "*"
pinocchio-token-2022 = "*"
pinocchio-associated-token-account = "*"
