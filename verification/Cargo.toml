[package]
name = "grump"
version = "0.1.0"
edition = "2021"
publish = false

[dependencies]
glob = "*"
pulldown-cmark = "*"
structopt = "*"
