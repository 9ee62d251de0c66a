[package]
name = "intel_pstate"
version = "1.0.0"
edition = "2021"
publish = false

[dependencies]
err-derive = "*"
smart-default = "*"
