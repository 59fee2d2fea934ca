[package]
name = "usbd-ccid"
version = "0.1.0"
edition = "2021"
publish = false

[dependencies]
heapless = "0.7"
interchange = "0.3"
iso7816 = "0.1"
usb-device = "0.2"
