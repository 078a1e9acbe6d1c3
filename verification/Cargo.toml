[package]
name = "vm-superio"
version = "0.1.0"
edition = "2021"
publish = false

[dependencies]
serde = { version = "1", features = ["derive"] }
versionize = "*"
versionize_derive = "*"
vmm-sys-util = "*"

[dev-dependencies]
libc = "0.2"
