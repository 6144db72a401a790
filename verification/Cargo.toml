[package]
name = "llvm_bind"
version = "0.1.0"
edition = "2021"
publish = false

[dependencies]
llvm-sys = "0.4.0"
