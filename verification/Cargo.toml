[package]
name = "scalar_codegen"
version = "0.1.0"
edition = "2021"
publish = false

[dependencies]
quote = "1"
syn = "=2.0.119"
