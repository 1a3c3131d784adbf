[package]
name = "hassle-rs"
version = "0.1.0"
edition = "2021"
publish = false

[dependencies]
com = "0.6"
libc = "0.2"
libloading = "0.6"
winapi = { version = "0.3", features = ["ntdef", "wtypes", "combaseapi", "oleauto"] }
