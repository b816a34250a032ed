[package]
name = "steampipe-forge"
version = "0.1.0"
edition = "2021"
publish = false

[dependencies]
iac-forge = "*"
