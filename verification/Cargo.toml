[package]
name = "fiftyone_degrees"
version = "0.1.0"
edition = "2021"
publish = false

[dependencies]
itertools = "=0.15.0"
strum_macros = "*"
thiserror = "=2.0.21"
