[package]
name = "decrypt_effect"
version = "0.1.0"
edition = "2021"
publish = false

[dependencies]
crossterm = "=0.26.1"
getopts = "=0.2.24"
rand = "=0.8.8"
unicode-width = "=0.1.10"
