[package]
name = "newrelic"
version = "0.1.0"
edition = "2021"
publish = false

[dependencies]
newrelic-sys = "*"
libc = "*"
