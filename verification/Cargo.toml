[package]
name = "p0nd_os"
version = "0.1.0"
edition = "2021"
publish = false

[dependencies]
crossbeam-queue = "=0.3.14"
futures-util = "=0.3.34"
conquer-once = "=0.4.0"
pc-keyboard = "=0.7.0"
lazy_static = "=1.5.1"
x86_64 = { version = "=0.14.13", default-features = false, features = ["instructions"] }
bootloader = "=0.9.35"
