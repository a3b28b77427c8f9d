[package]
name = "welch"
version = "0.1.0"
edition = "2021"
publish = false

[dependencies]
detrend = "*"
num-complex = "*"
num-traits = "*"
pxwindow = "*"
zaft = "*"
