[package]
name = "tdata_reader"
version = "0.1.0"
edition = "2021"
publish = false

[dependencies]
md5 = "=0.8.1"
ring = "=0.17.14"
grammers-crypto = "=0.8.0"
encoding_rs = "=0.8.42"
once_cell = "=1.21.4"
dirs = "=7.0.0"
anyhow = "=1.0.104"
