[package]
name = "ledger_utility"
version = "0.1.0"
edition = "2021"
publish = false

[dependencies]
btleplug = "*"
ledger-bluetooth = "*"
ledger-transport = "*"
ledger-transport-hid = "*"
