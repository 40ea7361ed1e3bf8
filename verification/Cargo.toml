[package]
name = "nanonis_plot"
version = "0.1.0"
edition = "2021"
publish = false

[dependencies]
anyhow = "1"
csv = "1"
plotters = "0.3"
