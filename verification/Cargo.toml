[package]
name = "zokrates_core"
version = "0.1.0"
edition = "2021"
publish = false

[dependencies]
bellman = "=0.1.0"
clap = "=2.34.0"
pairing = "=0.14.2"
phase2 = "=0.2.2"
