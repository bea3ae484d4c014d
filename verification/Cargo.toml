[package]
name = "lunatech"
version = "0.1.0"
edition = "2021"
publish = false

[dependencies]
clap = "4"
colored = "2"
cpal = "0.15"
crossbeam = "0.8"
realfft = "3"
rosc = "0.10"
socket2 = "0.5"
