[package]
name = "js_to_ts_compiler"
version = "0.1.0"
edition = "2021"
publish = false

[dependencies]
clap = "4"
