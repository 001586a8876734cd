[package]
name = "deepmath"
version = "1.0.0"
edition = "2021"
publish = false

[dependencies]
anyhow = "1"
clap = "3"
colored = "2"
flate2 = "1"
log = "0.4"
simple_logger = "1"
termimad = "*"
ureq = "2"

[dev-dependencies]
tar = "0.4"
