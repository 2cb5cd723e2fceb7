[package]
name = "virtio_gpu"
version = "0.1.0"
edition = "2021"
publish = false

[dependencies]
crossbeam-channel = "=0.5.17"
libc = "=0.2.191"
log = "=0.4.35"
rutabaga_gfx = "=0.1.3"
vm-memory = { version = "=0.16.2", features = ["backend-mmap"] }
