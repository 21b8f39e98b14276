[package]
name = "acpi_tables"
version = "0.1.0"
edition = "2021"
publish = false

[dependencies]
displaydoc = "0.2"
thiserror = "1"
vm-memory = { version = "0.16", features = ["backend-mmap"] }
zerocopy = "0.8"
