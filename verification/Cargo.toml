[package]
name = "ptybridge"
version = "0.1.0"
edition = "2021"
publish = false

[dependencies]
nix = "0.26"
termios = "0.3"
libc = "0.2"
dotenvy = "0.15"
