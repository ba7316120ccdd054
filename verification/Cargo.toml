[package]
name = "consensus"
version = "0.1.0"
edition = "2021"
publish = false

[dependencies]
anyhow = "1"
async-std = "1"
blake2-rfc = "0.2"
byteorder = "1"
futures = "0.3"
primitive-types = "0.12"
structopt = "0.3"
