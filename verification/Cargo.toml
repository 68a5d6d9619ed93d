[package]
name = "msi_kvm"
version = "0.1.0"
edition = "2021"
publish = false

[dependencies]
rusb = "*"
crossbeam-channel = "*"
