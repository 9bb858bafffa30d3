[package]
name = "falling_sand"
version = "0.1.0"
edition = "2021"

[dependencies]
crossterm = "*"
