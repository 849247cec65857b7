[package]
name = "libvirt_node"
version = "0.1.0"
edition = "2021"
publish = false

[dependencies]
serde_json = "=1.0.151"
virt = { version = "=0.4.3", features = ["qemu"] }
