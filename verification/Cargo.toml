[package]
name = "potato_handler"
version = "0.1.0"
edition = "2021"
publish = false

[dependencies]
clvmr = "=0.16.4"
clvm_tools_rs = "=0.4.0"
sha2 = "=0.10.9"
