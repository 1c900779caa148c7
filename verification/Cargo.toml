[package]
name = "pg_temporal"
version = "0.1.0"
edition = "2021"
publish = false

[dependencies]
bytes = "=1.12.1"
chrono = "=0.4.45"
postgres-protocol = "=0.6.12"
