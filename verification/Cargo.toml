[package]
name = "buffer_trigger"
version = "0.1.0"
edition = "2021"
publish = false

[dependencies]
async-std = "*"
lifetime-thread = "*"
log = "*"
