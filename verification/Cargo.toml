[package]
name = "whirlpool_fees"
version = "0.1.0"
edition = "2021"
publish = false

[dependencies]
ethnum = "=1.5.3"
