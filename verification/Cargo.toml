[package]
name = "proc_macro_loader"
version = "0.1.0"
edition = "2021"
publish = false

[dependencies]
goblin = "0.10"
libloading = "=0.6.7"
