[package]
name = "strata-foundry-bridge"
version = "0.1.0"
edition = "2021"
publish = false

[dependencies]
serde_json = "=1.0.154"
stratadb = "=0.0.1"
