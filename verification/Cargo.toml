[package]
name = "relay_node"
version = "0.1.0"
edition = "2021"
publish = false

[dependencies]
blake3 = { version = "=1.8.7", default-features = false, features = ["pure"] }
cortex-m = "*"
cyw43 = "*"
cyw43-pio = "*"
defmt = "*"
defmt-rtt = "*"
embassy-executor = "=0.10.0"
embassy-futures = "=0.1.2"
embassy-net = { version = "=0.9.1", features = ["tcp", "udp", "dhcpv4", "proto-ipv4", "medium-ethernet"] }
embassy-net-wiznet = "*"
embassy-rp = { version = "*", features = ["rp2040"] }
embassy-sync = "=0.8.0"
embassy-time = "=0.5.1"
embassy-usb = "*"
embedded-io-async = "=0.7.0"
heapless = "*"
static_cell = "*"
