[package]
name = "seify_bladerf"
version = "0.1.0"
edition = "2021"

[dependencies]
anyhow = "1"
futures-lite = "2"
nusb = "0.1"
thiserror = "1"
