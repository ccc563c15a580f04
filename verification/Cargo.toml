[package]
name = "spools"
version = "0.1.0"
edition = "2021"
publish = false

[dependencies]
fastrand = "=2.5.0"
serde_json = "=1.0.151"
serde = { version = "=1.0.229", features = ["derive"] }
thiserror = "=2.0.21"
reqwest = { version = "=0.13.5", default-features = false, features = ["blocking", "form"] }
