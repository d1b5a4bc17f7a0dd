[package]
name = "envsh"
version = "0.1.0"
edition = "2021"
publish = false

[dependencies]
reqwest = { version = "=0.13.5", default-features = false, features = ["blocking", "multipart"] }
jiff = "=0.2.38"
clap = { version = "=4.6.7", features = ["derive"] }
clap_complete = "=4.6.11"
