[package]
name = "verco"
version = "0.1.0"
edition = "2021"
publish = false

[dependencies]
bounded-vec-deque = "0.1"
crossterm = "*"
