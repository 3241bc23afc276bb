[package]
name = "theme"
version = "0.1.0"
edition = "2021"
publish = false

[dependencies]
dioxus = { version = "0.6", default-features = false, features = ["macro", "html", "signals", "hooks"] }
serde = { version = "1", features = ["derive", "rc"] }
web-sys = { version = "0.3", features = ["Document", "Element", "Event", "EventTarget", "HtmlElement", "MediaQueryList", "Storage", "StorageEvent", "Window", "console"] }
yew = { version = "0.21" }
