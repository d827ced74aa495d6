[package]
name = "scraen"
version = "0.1.0"
edition = "2021"
publish = false

[dependencies]
image = "*"
serial2 = "*"
chrono = "*"
randomwalk = "*"
