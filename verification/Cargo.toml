[package]
name = "pie"
version = "0.1.0"
edition = "2021"
publish = false

[dependencies]
toml = "*"
serde_json = "*"
url = "*"
git2 = "*"
tide = "*"
surf = { version = "*", default-features = false, features = ["h1-client-rustls"] }
async-std = { version = "*", features = ["attributes"] }
serde = { version = "*", features = ["derive"] }
directories = "*"
lazy_static = "*"
