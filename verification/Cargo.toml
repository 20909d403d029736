[package]
name = "arpad"
version = "0.1.0"
edition = "2021"
publish = false

[dependencies]
crossbeam-channel = "*"
fragile = "*"
reaper-low = "*"
reaper-macros = "*"
reaper-medium = "*"
rosc = "*"
