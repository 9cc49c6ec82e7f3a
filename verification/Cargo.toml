[package]
name = "arithmetic_op"
version = "0.1.0"
edition = "2021"
publish = false

[dependencies]
clippy_utils = "*"
dylint_linting = "*"
