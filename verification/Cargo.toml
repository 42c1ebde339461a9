[package]
name = "kernel_with_bootloader"
version = "0.1.0"
edition = "2021"
publish = false

[dependencies]
bootloader_api = "=0.11.17"
good_memory_allocator = "=0.1.7"
lazy_static = "=1.5.1"
noto-sans-mono-bitmap = { version = "=0.3.2", features = ["unicode-specials"] }
pc-keyboard = "=0.9.0"
spin = "=0.12.3"
x86_64 = { version = "=0.15.5", default-features = false, features = ["instructions"] }
