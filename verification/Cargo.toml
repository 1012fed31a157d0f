[package]
name = "asteroid_landing"
version = "0.1.0"
edition = "2021"
publish = false

[dependencies]
yew = { version = "0.21", features = ["csr"] }
web-sys = { version = "0.3", features = ["Window", "Document", "Element", "MediaQueryList", "MouseEvent"] }
