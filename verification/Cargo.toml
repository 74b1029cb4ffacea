[package]
name = "iced_xml"
version = "0.1.0"
edition = "2021"
publish = false

[dependencies]
roxmltree = "*"
syn = { version = "2", features = ["full"] }
quote = "1"
proc-macro2 = "1"
iced = { version = "0.13", default-features = false, features = ["tokio"] }
