[package]
name = "pdf_images"
version = "0.1.0"
edition = "2021"
publish = false

[dependencies]
image = "*"
pdfium-render = "*"
