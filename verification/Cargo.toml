[package]
name = "xanadu"
version = "0.1.0"
edition = "2021"
publish = false

[dependencies]
arrayvec = "=0.7.8"
rand = "=0.8.8"
shakmaty = "=0.16.4"
