[package]
name = "wikipedia_pages"
version = "0.1.0"
edition = "2021"
publish = false

[dependencies]
async-trait = "0.1"
thirtyfour = "0.27"
tokio = { version = "1", features = ["time"] }
