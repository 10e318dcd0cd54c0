[package]
name = "encoder_x86_64"
version = "0.1.0"
edition = "2021"
publish = false

[dependencies]
cranelift-codegen = "=0.100.1"
cranelift-frontend = "=0.100.1"
cranelift-jit = "=0.100.1"
cranelift-module = "=0.100.1"
cranelift-native = "=0.100.1"
cranelift-object = "=0.100.1"
