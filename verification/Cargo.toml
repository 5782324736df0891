[package]
name = "nomia_names"
version = "0.1.0"
edition = "2021"

[dependencies]
cstr_core = { version = "*", features = ["alloc"] }
