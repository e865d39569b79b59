[package]
name = "assuan"
version = "0.1.0"
edition = "2021"
publish = false

[dependencies]
async-std = "1"
