[package]
name = "expl_compiler"
version = "0.1.0"
edition = "2021"
publish = false

[dependencies]
log = "=0.4.35"
env_logger = "=0.10.2"
regex = "=1.13.1"
lrlex = "0.12"
lrpar = "0.12"
