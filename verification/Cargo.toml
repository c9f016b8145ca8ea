[package]
name = "slot_dispatch"
version = "0.1.0"
edition = "2021"
publish = false

[dependencies]
crossbeam-utils = "*"
wasmedge_http_req = "*"
wasmedge_wasi_socket = "*"
