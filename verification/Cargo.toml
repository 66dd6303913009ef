[package]
name = "inkview"
version = "0.1.0"
edition = "2021"
publish = false

[dependencies]
tinybmp = "0.2"
