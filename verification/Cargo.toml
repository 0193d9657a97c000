[package]
name = "embassy-esp32c3"
version = "0.1.0"
edition = "2021"
publish = false

[dependencies]
esp32c3 = "=0.34.0"
riscv = "=0.8.0"
critical-section = "=1.2.0"
embedded-hal = "=0.2.7"
r0 = "=1.0.0"
riscv-rt = "=0.9.0"
atomic-polyfill = "=1.0.3"
riscv-atomic-emulation-trap = "=0.1.1"
nb = "=1.1.0"
defmt = "=0.3.101"
panic-halt = "=0.2.0"
futures = { version = "=0.3.34", default-features = false }
