[package]
name = "venv_bootstrap"
version = "0.1.0"
edition = "2021"
publish = false

[dependencies]
anyhow = "1"
camino = "1"
configparser = "3"
dirs = "5"
fs-err = "2"
minreq = "2"
tempfile = "3"
tracing = "0.1"
