[package]
name = "gb_rw"
version = "0.1.0"
edition = "2021"
publish = false

[dependencies]
bufstream = "=0.1.4"
serial = "=0.4.0"
clap = "=2.34.0"
