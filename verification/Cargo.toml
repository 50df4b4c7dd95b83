[package]
name = "zamburak"
version = "0.1.0"
edition = "2021"
publish = false

[dependencies]
camino = "*"
cap-std = { version = "*", features = ["fs_utf8"] }
serde = { version = "*", features = ["derive"] }
serde_json = "*"
serde_yaml = "*"
sha2 = "*"
thiserror = "*"
