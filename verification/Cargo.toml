[package]
name = "super_rodio"
version = "0.1.0"
edition = "2021"
publish = false

[dependencies]
limited-queue = "=0.2.0"
rodio = "=0.17.3"
