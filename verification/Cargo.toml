[package]
name = "mpris_osc"
version = "0.1.0"
edition = "2021"
publish = false

[dependencies]
rosc = "=0.11.4"
mpris = { version = "=2.1.0", features = ["dbus-vendored"] }
async-channel = "=2.5.0"
async-io = "=2.6.0"
async-net = "=2.0.0"
futures-lite = "=2.6.1"
eyre = "=0.6.14"
