[package]
name = "seven_wonders"
version = "0.1.0"
edition = "2021"

[dependencies]
itertools = "0.10"
rand = "0.8"
