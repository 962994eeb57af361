[package]
name = "virtio_transport"
version = "0.1.0"
edition = "2021"
publish = false

[dependencies]
virtio-drivers = "*"
httparse = "*"
