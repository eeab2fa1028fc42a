[package]
name = "terminal"
version = "0.1.0"
edition = "2021"
publish = false

[dependencies]
alacritty_terminal = "=0.25.1"
anyhow = "1"
dirs = "=5.0.1"
futures = "=0.3.34"
smol = "2"
unicode-width = "=0.2.3"
urlencoding = "=2.1.3"

[dev-dependencies]
rand = "0.8"
