[package]
name = "bender"
version = "0.1.0"
edition = "2021"
publish = false

[dependencies]
rustc-serialize = "0.3"
irc = "0.11"
nanomsg = "*"
clap = "2"
