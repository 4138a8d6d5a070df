[package]
name = "codegen_util"
version = "0.1.0"
edition = "2021"
publish = false

[dependencies]
quote = "0.3"
syn = "=0.11.11"
