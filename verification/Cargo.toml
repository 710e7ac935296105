[package]
name = "qmi_psram"
version = "0.1.0"
edition = "2021"
publish = false

[dependencies]
rp235x-hal = { version = "*", features = ["rt", "critical-section-impl", "binary-info"] }
cortex-m = "*"
critical-section = "*"
embedded-alloc = "*"
heapless = "*"
usb-device = "*"
usbd-serial = "*"
