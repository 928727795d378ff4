[package]
name = "case_folding"
version = "0.1.0"
edition = "2021"
publish = false

[dependencies]
ureq = "2"
