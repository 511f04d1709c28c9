[package]
name = "vtable"
version = "0.1.0"
edition = "2021"
publish = false

[dependencies]
const-field-offset = "*"
euclid = "*"
