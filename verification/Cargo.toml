[package]
name = "gsoc2_cli"
version = "0.1.0"
edition = "2021"
publish = false

[dependencies]
anyhow = "1"
clap = { version = "4", features = ["string"] }
clap_complete = "4"
console = "0.15"
log = { version = "0.4", features = ["std"] }
runas = "1"
