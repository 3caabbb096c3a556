[package]
name = "recompress"
version = "0.1.0"
edition = "2021"
publish = false

[dependencies]
brotli = "*"
clap = { version = "*", features = ["derive"] }
flate2 = "*"
lzma-rs = "*"
xz2 = "*"
zstd = "*"
