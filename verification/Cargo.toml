[package]
name = "vexide_slint"
version = "0.1.0"
edition = "2021"
publish = false

[dependencies]
i-slint-core = "*"
vexide = "=0.7.0"
