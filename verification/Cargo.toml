[package]
name = "idcert"
version = "0.1.0"
edition = "2021"
publish = false

[dependencies]
der = { version = "0.7", features = ["alloc", "oid", "pem"] }
spki = { version = "0.7", features = ["alloc"] }
x509-cert = "0.2"
serde = { version = "1", features = ["derive"] }
