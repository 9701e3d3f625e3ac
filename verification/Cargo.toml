[package]
name = "pdf_to_ocr"
version = "0.1.0"
edition = "2021"
publish = false

[dependencies]
actix-web = "4"
image = "*"
mupdf = "*"
reqwest = "*"
rusty-tesseract = "*"
serde = { version = "1", features = ["derive"] }
serde_json = "1"
