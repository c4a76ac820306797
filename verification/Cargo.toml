[package]
name = "ibs_rs"
version = "0.1.0"
edition = "2021"
publish = false

[dependencies]
amcl_wrapper = "=0.4.0"
rand = "=0.7.3"
