[package]
name = "hello_cargo"
version = "0.1.0"
edition = "2021"
publish = false

[dependencies]
ansi_term = "0.12"
iron = "0.6"
log = "0.4"
num = "0.4"
simple_logger = "*"
