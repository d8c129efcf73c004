[package]
name = "conduit-persistent"
version = "0.1.0"
edition = "2021"
publish = false

[dependencies]
conduit = "=0.10.0"
conduit-middleware = "=0.10.0"

[dev-dependencies]
conduit-test = "=0.10.0"
