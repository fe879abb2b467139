[package]
name = "deferred"
version = "0.1.0"
edition = "2021"
publish = false

[dependencies]
genmesh = "*"
noise = "*"
cgmath = "*"
rand = "*"
env_logger = "*"
time = "*"
gfx = "0.18"
glutin = "0.21"
gfx_window_glutin = "0.31"
