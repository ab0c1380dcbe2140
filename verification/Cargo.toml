[package]
name = "acpi"
version = "0.1.0"
edition = "2021"
publish = false

[dependencies]
bit_field = "0.10.2"
log = "0.4"
