[package]
name = "flap_os"
version = "0.1.0"
edition = "2021"
publish = false

[dependencies]
bootloader = "0.9"
lazy_static = { version = "1.4", features = ["spin_no_std"] }
spin = "0.5"
volatile = "0.2"
