[package]
name = "sleepy_whale"
version = "0.1.0"
edition = "2021"
publish = false

[dependencies]
regex-lite = "0.1"
leptos = { version = "0.8", features = ["csr"] }
wasm-bindgen = "0.2"
wasm-bindgen-futures = "0.4"
web-sys = { version = "0.3", features = ["Window", "Document", "Element", "HtmlElement", "HtmlIFrameElement", "DomTokenList", "CssStyleDeclaration"] }
