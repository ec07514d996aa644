[package]
name = "web_window"
version = "0.1.0"
edition = "2021"
publish = false

[dependencies]
web-sys = { version = "0.3", features = ["Window", "MediaQueryList", "HtmlCanvasElement", "HtmlElement", "CssStyleDeclaration"] }
