[package]
name = "aconv"
version = "0.1.0"
edition = "2021"
publish = false

[dependencies]
encoding_rs = "*"
chardetng = "*"
structopt = "*"
exitcode = "*"
