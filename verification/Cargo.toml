[package]
name = "flb_plugin"
version = "0.1.0"
edition = "2021"
publish = false

[dependencies]
flb-plugin-sys = "*"
rmpv = "*"
