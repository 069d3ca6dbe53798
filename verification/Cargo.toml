[package]
name = "badge_core"
version = "0.1.0"
edition = "2021"
publish = false

[dependencies]
cyw43 = "=0.7.0"
defmt = "=1.2.0"
defmt-rtt = "=1.3.1"
embassy-embedded-hal = "=0.6.0"
embassy-executor = { version = "=0.9.1", features = ["arch-std", "executor-thread"] }
embassy-futures = "=0.1.2"
embassy-net = { version = "=0.9.1", features = ["tcp", "dhcpv4", "dns", "proto-ipv4", "medium-ethernet"] }
embassy-sync = "=0.8.0"
embassy-time = "=0.5.1"
embedded-graphics = "=0.8.2"
embedded-hal-async = "=1.0.0"
embedded-storage-async = "=0.4.2"
heapless = "=0.9.3"
panic-reset = "=0.1.1"
pcf85063a = "=0.1.1"
portable-atomic = "=1.15.0"
postcard = { version = "=1.1.3", default-features = false }
reqwless = { version = "=0.14.0", default-features = false }
serde = { version = "=1.0.229", default-features = false, features = ["derive"] }
serde-json-core = "=0.7.0"
shtcx = "=1.0.0"
static_cell = "=2.1.1"
time = { version = "=0.3.55", default-features = false }
tinybmp = "=0.7.0"
uc8151 = "=0.2.0"
