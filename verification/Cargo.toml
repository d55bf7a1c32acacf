[package]
name = "school_platform"
version = "0.1.0"
edition = "2021"
publish = false

[dependencies]
chrono = "=0.4.45"
bcrypt = "=0.15.1"
rand = "=0.8.8"
