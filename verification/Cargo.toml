[package]
name = "cbmc_results"
version = "0.1.0"
edition = "2021"
publish = false

[dependencies]
regex = "1"
pathdiff = "0.2"
serde = { version = "1", features = ["derive"] }
serde_json = "1"
syn = { version = "2", features = ["full"] }
quote = "1"
proc-macro2 = "1"
proc-macro-error = "1"
