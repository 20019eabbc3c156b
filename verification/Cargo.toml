[package]
name = "fletcher"
version = "0.1.0"
edition = "2021"
publish = false

[dependencies]
brotli = "=9.0.0"
libflate = "=2.3.2"
libxml = "=0.3.3"
reqwest = { version = "=0.13.5", features = ["blocking"] }
