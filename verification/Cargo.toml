[package]
name = "riscv_vmm"
version = "0.1.0"
edition = "2021"
publish = false

[dependencies]
vm-fdt = "*"
vm-memory = { version = "*", features = ["backend-mmap"] }
kvm-ioctls = "*"
kvm-bindings = "*"
thiserror = "*"
displaydoc = "*"
serde = { version = "*", features = ["derive"] }
serde_json = "*"
