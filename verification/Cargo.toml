[package]
name = "termedit"
version = "0.1.0"
edition = "2021"
publish = false

[dependencies]
unicode-segmentation = "1"
syntect = { version = "5", default-features = false, features = ["default-fancy"] }
synoptic = "1"
crossterm = "0.25"
clap = { version = "3.2", features = ["derive"] }
tui = "0.19"
