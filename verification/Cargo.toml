[package]
name = "airbus_systems"
version = "0.1.0"
edition = "2021"
publish = false

[dependencies]
uom = "*"
rand = "0.8"
num-traits = "0.2"
