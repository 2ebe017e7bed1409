[package]
name = "drawio_filter"
version = "0.1.0"
edition = "2021"
publish = false

[dependencies]
pandoc_types = "*"
serde_json = "1"
rayon = "1"
clap = "3"
anyhow = "1"
