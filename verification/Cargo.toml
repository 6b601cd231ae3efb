[package]
name = "eth_wallet"
version = "0.1.0"
edition = "2021"
publish = false

[dependencies]
async-channel = "=2.5.0"
ethabi = "=18.0.0"
chamomile_types = "=0.11.2"
web3 = { version = "=0.19.0", default-features = false }
bevy = { version = "=0.19.1", default-features = false }
