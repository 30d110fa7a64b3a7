[package]
name = "cryptobox"
version = "1.0.0"
edition = "2021"
publish = false

[dependencies]
byteorder = "=1.5.0"
cbor-codec = "=0.7.1"
libc = "=0.2.191"
postgres = { version = "=0.19.14", features = ["with-uuid-1"] }
uuid = "=1.29.0"
