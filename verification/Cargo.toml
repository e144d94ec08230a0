[package]
name = "token_escrow"
version = "0.1.0"
edition = "2021"
publish = false
