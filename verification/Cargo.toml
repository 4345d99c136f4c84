[package]
name = "vhost-user-fs"
version = "0.1.0"
edition = "2021"
publish = false

[dependencies]
libc = "*"
log = "*"
seccompiler = "*"
serde = { version = "*", features = ["derive"] }
serde_with = "*"
vhost = { version = "*", features = ["vhost-user-frontend"] }
vm-memory = { version = "*", features = ["backend-mmap", "backend-atomic", "backend-bitmap"] }
vmm-sys-util = "*"
