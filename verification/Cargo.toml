[package]
name = "table_rs"
version = "0.1.0"
edition = "2021"
publish = false

[dependencies]
gloo-timers = "*"
maplit = "*"
web-sys = { version = "*", features = ["Window", "Location", "History", "Url", "UrlSearchParams", "HtmlInputElement"] }
