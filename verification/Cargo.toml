[package]
name = "anchor_lldb"
version = "0.1.0"
edition = "2021"
publish = false

[dependencies]
anchor-idl = "*"
clap = { version = "4", features = ["derive"] }
regex = "1"
serde_json = "1"
syn = { version = "2", features = ["full"] }
tempfile = "3"
toml_edit = "*"
walkdir = "2"
