[package]
name = "bt_hci_transport"
version = "0.1.0"
edition = "2021"
publish = false

[dependencies]
bt-hci = { version = "=0.7.0", default-features = false }
embassy-sync = "=0.7.2"
embassy-futures = "=0.1.2"
embedded-io-async = "=0.7.0"
