[package]
name = "rs-matter-embassy"
version = "0.1.0"
edition = "2021"
publish = false

[dependencies]
heapless = "=0.8.0"
embassy-net = { version = "=0.9.1", features = ["proto-ipv4", "proto-ipv6", "medium-ethernet", "dhcpv4", "udp"] }
embassy-futures = "=0.1.2"
embassy-sync = "=0.8.0"
embassy-time = "=0.5.1"
edge-nal = "=0.7.0"
edge-nal-embassy = "=0.9.0"
cyw43 = "=0.7.0"
