[package]
name = "river_dreams"
version = "0.1.0"
edition = "2021"
publish = false

[dependencies]
git2 = { version = "*", default-features = false }
num-format = "*"
anyhow = "*"
chrono = "*"
crossterm = "*"
libc = "*"
local-ip-address = "*"
open = "*"
battery = "*"
