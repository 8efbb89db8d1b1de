[package]
name = "popai"
version = "0.1.0"
edition = "2021"
publish = false

[dependencies]
hex = "=0.4.3"
sha2 = "*"
candid = "=0.10.37"
ic-cdk = "=0.20.3"
ic-llm = "=2.0.0"
serde = "=1.0.229"
