[package]
name = "glwfr"
version = "0.4.1"
edition = "2021"
publish = false

[dependencies]
cgmath = "0.18"
env_logger = "0.11"
gl = "0.14"
glfw = "*"
image = "*"
lazy_static = "1"
log = "0.4"
rodio = "0.17"
thiserror = "*"
