[package]
name = "winsrv"
version = "0.1.0"
edition = "2021"
publish = false

[dependencies]
anyhow = "1"
chrono = "0.4"
log = "0.4"
log4rs = "1"
windows-service = "*"
