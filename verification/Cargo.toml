[package]
name = "p_os"
version = "0.1.0"
edition = "2021"
publish = false

[dependencies]
bootloader_api = "=0.11.17"
bootloader-x86_64-common = "0.11"
conquer-once = { version = "=0.4.0", default-features = false }
log = "=0.4.34"
ovmf-prebuilt = "=0.1.0-alpha.1"
pc-keyboard = "=0.7.0"
pic8259 = "=0.10.4"
spin = "=0.9.9"
terminal_size = "=0.2.6"
uart_16550 = "=0.2.19"
wait-timeout = "=0.2.1"
x86_64 = { version = "=0.14.13", default-features = false, features = ["instructions"] }
