[package]
name = "freewili_updater"
version = "0.1.0"
edition = "2021"
publish = false

[dependencies]
lz4 = "*"
serial2 = "*"
freewili-finder-rs = "*"
