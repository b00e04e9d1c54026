[package]
name = "modrinth_apitool"
version = "0.1.0"
edition = "2021"
publish = false

[dependencies]
sha2 = "*"
base16ct = { version = "*", features = ["alloc"] }
reqwest = { version = "*", default-features = false, features = ["blocking", "json"] }
serde = { version = "*", features = ["derive"] }
serde_json = "*"
toml = "*"
colored = "*"
argparse = "*"
