[package]
name = "i3s"
version = "0.1.0"
edition = "2021"
publish = false

[dependencies]
dashmap = "*"
flate2 = "*"
nalgebra = "*"
reqwest = { version = "*", default-features = false, features = ["blocking", "json"] }
serde = { version = "*", features = ["derive"] }
serde_json = "*"
thiserror = "*"
zip = { version = "*", default-features = false, features = ["deflate"] }
