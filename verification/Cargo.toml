[package]
name = "ssh_with_gh"
version = "0.1.0"
edition = "2021"
publish = false

[dependencies]
chrono = "0.4"
libc = "0.2"
pam-sys = "0.5"
reqwest = { version = "0.12", features = ["blocking", "json"] }
serde_json = "1"
