[package]
name = "lbclient"
version = "0.1.0"
edition = "2021"
publish = false

[dependencies]
clap = { version = "4", features = ["derive"] }
p256 = { version = "0.13", features = ["ecdsa", "pem", "pkcs8"] }
rand_core = { version = "0.6", features = ["getrandom"] }
sqlite = "*"
termcolor = "1"
