[package]
name = "nix_ffi"
version = "0.1.0"
edition = "2021"
publish = false

[dependencies]
libc = "0.2"
nix = "0.22"
os_pipe = "1"
thiserror = "1"
