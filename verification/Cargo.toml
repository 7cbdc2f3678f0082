[package]
name = "edgar_parser"
version = "0.1.0"
edition = "2021"
publish = false

[dependencies]
roxmltree = "*"
rustler = "*"
quick-xml = { version = "*", features = ["serialize"] }
serde = { version = "*", features = ["derive"] }
