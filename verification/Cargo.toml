[package]
name = "axkernel"
version = "0.1.0"
edition = "2021"
publish = false

[dependencies]
dma-api = "=0.10.2"
fdt-edit = "=0.2.3"
log = "=0.4.35"
page-table-generic = "=0.7.4"
uefi = { version = "=0.41.0", features = ["alloc"] }
uefi-raw = "=0.17.0"
