[package]
name = "physical_asset_delivery"
version = "0.1.0"
edition = "2021"
publish = false

[dependencies]
pqc_dilithium = "=0.2.0"
pqc_kyber = "=0.7.1"
rand = "=0.8.8"
parity-scale-codec = "=3.7.5"
