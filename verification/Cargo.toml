[package]
name = "solaredge_modbus"
version = "0.1.0"
edition = "2021"
publish = false

[dependencies]
modbus = "1"
mdns-sd = "*"
async-timer = "*"
log = "*"
