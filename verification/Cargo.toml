[package]
name = "witnet_core"
version = "0.1.0"
edition = "2021"
publish = false

[dependencies]
flatbuffers = "0.5"
actix = "*"
log = "*"
