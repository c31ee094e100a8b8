[package]
name = "indrasnet_dao_core"
version = "0.1.0"
edition = "2021"
publish = false

[dependencies]
anchor-lang = "*"
borsh = "*"
hex = "*"
sha2 = "*"
