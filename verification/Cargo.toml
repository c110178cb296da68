[package]
name = "finelex"
version = "0.1.0"
edition = "2021"
publish = false

[dependencies]
unicode-normalization = "*"
unicode-xid = "*"
pico-args = "*"
