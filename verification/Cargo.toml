[package]
name = "ntrixos"
version = "0.1.0"
edition = "2021"
publish = false

[dependencies]
heapless = "=0.8.0"
tryslab = { version = "=0.1.0", default-features = false, features = ["heapless"] }
bytemuck = "=1.25.2"
bitflags = "=2.13.2"
num_enum = { version = "=0.7.6", default-features = false }
portable-atomic = "=1.15.0"
cortex-m = "=0.7.10"
cortex-m-rt = "*"
rp-pac = "=7.0.0"
embassy-rp = { version = "*", features = ["rp2040"] }
embassy-executor = "*"
embassy-time = "*"
embassy-embedded-hal = "*"
embassy-sync = "=0.8.0"
embassy-futures = "=0.1.2"
embedded-hal = "=1.0.0"
embedded-hal-async = "=1.0.0"
static_cell = "=2.1.1"
defmt = "=1.2.0"
defmt-rtt = "*"
assign-resources = "*"
