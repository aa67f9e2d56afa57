[package]
name = "ntp_peer"
version = "0.1.0"
edition = "2021"
publish = false
