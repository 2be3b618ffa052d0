[package]
name = "netclock"
version = "0.1.0"
edition = "2021"
publish = false

[dependencies]
chrono = { version = "=0.4.45", default-features = false }
heapless = "=0.8.0"
embassy-sync = "=0.8.0"
embassy-time = "=0.5.1"
embassy-executor = "=0.9.1"
embassy-net = { version = "=0.9.1", features = ["dhcpv4", "dns", "udp", "proto-ipv4", "medium-ethernet"] }
embassy-embedded-hal = "=0.6.0"
embedded-hal-async = "=1.0.0"
sntpc = "=0.11.0"
ds3231 = { version = "=0.3.0", features = ["async"] }
log = "0.4"
thiserror = { version = "=2.0.21", default-features = false }
static_cell = "=2.1.1"
esp-hal = "=1.0.0"
esp-alloc = "=0.9.0"
esp-backtrace = "=0.20.0"
esp-bootloader-esp-idf = "=0.6.0"
esp-println = "=0.18.0"
esp-radio = "=0.16.0"
esp-rtos = "=0.1.1"
