[package]
name = "cmdlink"
version = "0.1.0"
edition = "2021"
publish = false

[dependencies]
anyhow = "1"
clap = { version = "3", features = ["derive"] }
indoc = "1"
itertools = "0.10"
rlua = "0.19"
thiserror = "1"
which = "4"
