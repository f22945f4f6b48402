[package]
name = "fs_panel"
version = "0.1.0"
edition = "2021"
publish = false

[dependencies]
lfs-core = "*"
file-size = "*"
strict = "*"
termimad = "*"
crossterm = "*"
