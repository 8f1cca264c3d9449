[package]
name = "noise_circle"
version = "0.1.0"
edition = "2021"
publish = false

[dependencies]
macroquad = "0.2"
megaui = "0.2"
noise = "0.6"
