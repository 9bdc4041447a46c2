[package]
name = "ept_mtrr"
version = "0.1.0"
edition = "2021"
publish = false
