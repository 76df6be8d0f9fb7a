[package]
name = "network_communicator"
version = "0.1.0"
edition = "2021"
publish = false

[dependencies]
curl = { version = "0.4", default-features = false }
mio = "0.6"
