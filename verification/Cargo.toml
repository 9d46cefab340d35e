[package]
name = "genpdf"
version = "0.1.0"
edition = "2021"
publish = false

[dependencies]
lopdf = "0.26"
printpdf = { version = "0.5", features = ["embedded_images"] }
