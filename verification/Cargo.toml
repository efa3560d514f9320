[package]
name = "documentation_as_code_gxp"
version = "0.1.0"
edition = "2021"
publish = false

[dependencies]
clap = { version = "4", features = ["derive"] }
gherkin = "*"
indexmap = { version = "2", features = ["serde"] }
pulldown-cmark = { version = "0.9", default-features = false }
serde = { version = "1", features = ["derive"] }
serde_json = "1"
