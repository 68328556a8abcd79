[package]
name = "alloc_profiling"
version = "0.1.0"
edition = "2021"
publish = false

[dependencies]
uuid = { version = "*", features = ["v4"] }
rand = "*"
rand_distr = "*"
libc = "*"
