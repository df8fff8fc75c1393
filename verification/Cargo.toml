[package]
name = "folium"
version = "0.1.0"
edition = "2021"
publish = false

[dependencies]
dispatch = "0.2"
objc2 = "0.6"
objc2-app-kit = "0.3"
objc2-foundation = "0.3"
objc2-pdf-kit = "0.3"
pdfium-render = "0.8"
