[package]
name = "ilda_player"
version = "0.1.0"
edition = "2021"
publish = false

[dependencies]
argparse = "*"
lase = "*"
point = "*"
time = "0.1"
