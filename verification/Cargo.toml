[package]
name = "tcp_probe"
version = "0.1.0"
edition = "2021"
publish = false

[dependencies]
log = "0.4"
stderrlog = "*"
structopt = "0.3"
