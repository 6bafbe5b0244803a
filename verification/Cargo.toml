[package]
name = "minidb"
version = "0.1.0"
edition = "2021"
publish = false

[dependencies]
arrow = "*"
arrow-schema = "*"
anyhow = "*"
thiserror = "*"
derive_builder = "*"
