[package]
name = "layouts_rs"
version = "0.1.0"
edition = "2021"
publish = false

[dependencies]
serde_json = "*"
serde = { version = "*", features = ["derive"] }
glob = "*"
reqwest = { version = "*", default-features = false, features = ["blocking"] }
object-merge = "=0.1.0-alpha1"
derive-object-merge = "=0.1.0-alpha1"
