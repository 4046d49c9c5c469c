[package]
name = "pcie"
version = "0.1.0"
edition = "2021"
publish = false

[dependencies]
mbarrier = "*"
thiserror = "*"
