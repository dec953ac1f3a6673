[package]
name = "ipc_bridge"
version = "0.1.0"
edition = "2021"

[dependencies]
ethabi = "18"
hex = "0.4"
interprocess = "1"
rand = "0.8"
