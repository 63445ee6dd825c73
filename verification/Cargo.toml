[package]
name = "audit_core"
version = "0.1.0"
edition = "2021"
publish = false

[dependencies]
rustsec = { version = "*", default-features = false, features = ["dependency-tree"] }
serde_json = "*"
abscissa_core = { version = "*", default-features = false, features = ["terminal"] }
clap = { version = "*", features = ["derive"] }
