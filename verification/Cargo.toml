[package]
name = "incrementer"
version = "0.1.0"
edition = "2021"
publish = false

[dependencies]
ink_storage = "=3.0.1"
ink_env = "=3.0.1"
ink_lang = "=3.0.1"
