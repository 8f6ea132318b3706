[package]
name = "boa_jit"
version = "0.1.0"
edition = "2021"
publish = false

[dependencies]
cranelift-codegen = "=0.128.4"
cranelift-frontend = "=0.128.4"
cranelift-jit = "=0.128.4"
cranelift-module = "=0.128.4"
cranelift-native = "=0.128.4"
