[package]
name = "pen_steer"
version = "0.1.0"
edition = "2021"
publish = false

[dependencies]
anyhow = "*"
ctrlc = "*"
directories = "*"
env_logger = "*"
input-linux = "*"
log = "*"
nix = "*"
