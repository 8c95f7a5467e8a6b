[package]
name = "deploy_docs"
version = "0.1.0"
edition = "2021"
publish = false

[dependencies]
colog = "*"
log = "*"
rexpect = "*"
