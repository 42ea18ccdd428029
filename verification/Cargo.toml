[package]
name = "rrr"
version = "0.1.0"
edition = "2021"
publish = false

[dependencies]
anyhow = "1"
dirs = "4"
itertools = "0.10"
open = "3"
termion = "1.5"
tui = { version = "0.19", default-features = false, features = ["termion"] }
