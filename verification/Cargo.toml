[package]
name = "space_invaders"
version = "0.1.0"
edition = "2021"
publish = false

[dependencies]
cortex-a = "*"
env_logger = "*"
log = "*"
minifb = "*"
noto-sans-mono-bitmap = "*"
tock-registers = "*"
