[package]
name = "synchrotron"
version = "0.1.0"
edition = "2021"
publish = false

[dependencies]
futures = "0.1"
index_queue = "=0.1.0"
void = "1"
