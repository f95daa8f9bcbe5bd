[package]
name = "udp_transport"
version = "0.1.0"
edition = "2021"
publish = false

[dependencies]
zstd = "=0.9.2"
async-net = "=2.0.0"
# only drives the real-socket scenarios in tests/ and the app layer's loop
futures-lite = "=2.6.1"
