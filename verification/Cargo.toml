[package]
name = "isak"
version = "0.1.0"
edition = "2021"
publish = false

[dependencies]
clap = "4"
either = "1"
libblkid-rs = "*"
uuid = "1"
