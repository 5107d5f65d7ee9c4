[package]
name = "powmine"
version = "0.1.0"
edition = "2021"
publish = false

[dependencies]
sha2 = "=0.11.0"
spmc = "=0.3.0"
threadpool = "*"
