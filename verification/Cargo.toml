[package]
name = "gpgpu_test"
version = "0.1.0"
edition = "2021"
publish = false

[dependencies]
wgpu = "0.16"
bytemuck = "1"
futures = "0.3"
log = "0.4"
thiserror = "1"
