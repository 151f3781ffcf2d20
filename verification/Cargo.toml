[package]
name = "remote_agent"
version = "0.1.0"
edition = "2021"
publish = false

[dependencies]
qdb = "=0.1.10"
esp-idf-svc = "0.49"
embedded-svc = "0.28"
