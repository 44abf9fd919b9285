[package]
name = "rtc_pl031"
version = "0.1.0"
edition = "2021"
publish = false

[dependencies]
dbs-device = "*"
dbs-utils = "*"
log = "*"
vm-superio = "*"
