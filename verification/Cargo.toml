[package]
name = "position_binder"
version = "0.1.0"
edition = "2021"
publish = false
rust-version = "1.95"

[dependencies]
ra_ap_syntax = "=0.0.320"
