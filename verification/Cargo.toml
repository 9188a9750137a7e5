[package]
name = "industrial_robots"
version = "0.1.0"
edition = "2021"
publish = false

[dependencies]
ik-geo = "*"
fixed = "*"
cordic = "*"
