[package]
name = "zkutxo"
version = "0.1.0"
edition = "2021"
publish = false

[dependencies]
ark-bn254 = "=0.6.0"
ark-circom = "=0.6.0"
ark-ec = "=0.6.0"
ark-ed-on-bn254 = "=0.6.0"
ark-ff = "=0.6.0"
ark-groth16 = "=0.6.0"
ark-relations = "=0.6.0"
ark-serialize = "=0.6.0"
ark-snark = "=0.6.0"
num-bigint = "=0.4.8"
rand = "=0.8.8"

[dev-dependencies]
hex = "=0.4.3"
