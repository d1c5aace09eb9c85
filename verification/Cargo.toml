[package]
name = "ivf_writer"
version = "0.1.0"
edition = "2021"
publish = false

[dependencies]
rav1e = { version = "=0.8.1", default-features = false }
