[package]
name = "efr32_rail"
version = "0.1.0"
edition = "2021"
publish = false

[dependencies]
cortex-m = "=0.7.10"
cortex-m-rt = "=0.7.7"
defmt = "=1.2.0"
defmt-rtt = "=1.3.1"
efr32mg22-pac = { version = "=0.1.1", features = ["rt", "critical-section"] }
