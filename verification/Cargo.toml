[package]
name = "dtln_rs"
version = "0.1.0"
edition = "2021"
publish = false

[dependencies]
realfft = "=3.5.0"
num = "=0.4.3"
libm = "=0.2.16"
libc = "=0.2.190"
wav = "=1.0.1"
once_cell = "=1.21.4"
anyhow = "=1.0.104"
bytemuck = "*"

[dev-dependencies]
rand = "=0.10.3"
