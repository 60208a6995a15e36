[package]
name = "quark_core"
version = "0.1.0"
edition = "2021"
publish = false

[dependencies]
kvm-bindings = "*"
kvm-ioctls = "*"
lazy_static = "1"
libc = "0.2"
nix = { version = "*", features = ["signal"] }
