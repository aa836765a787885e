[package]
name = "axvm_core"
version = "0.7.0"
edition = "2021"
publish = false

[dependencies]
clap = { version = "*", features = ["derive"] }
ctrlc = "*"
kvm-bindings = "*"
kvm-ioctls = "*"
libc = "*"
num_cpus = "*"
