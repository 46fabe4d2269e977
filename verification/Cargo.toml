[package]
name = "pattern_filter"
version = "0.1.0"
edition = "2021"
publish = false

[dependencies]
regex = "1"
clap = "2"
termcolor = "1"
