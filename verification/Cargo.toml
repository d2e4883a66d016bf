[package]
name = "web_app_manifest"
version = "0.1.0"
edition = "2021"
publish = false

[dependencies]
url = "2"
csscolorparser = "*"
language-tags = "*"
mime = "*"
serde = { version = "1", features = ["derive"] }
serde_json = "1"
serde_with = "1"
thiserror = "1"
smart-default = "*"
parse-display = "*"
