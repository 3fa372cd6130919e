[package]
name = "rock_paper_scissors"
version = "0.1.0"
edition = "2021"
publish = false

[dependencies]
rand = "=0.7.3"
simple-error = "=0.3.3"
