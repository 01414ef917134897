[package]
name = "card_atlas"
version = "0.1.0"
edition = "2021"
publish = false

[dependencies]
serde_json = { version = "1", features = ["preserve_order"] }
image = { version = "0.25", default-features = false, features = ["png", "jpeg"] }
serde = { version = "1", features = ["derive"] }
egui = "0.32"
eframe = { version = "0.32", default-features = false, features = ["default_fonts", "glow", "persistence", "x11"] }
egui-winit = { version = "0.32", default-features = false }
rfd = { version = "0.15", default-features = false, features = ["xdg-portal", "tokio"] }
log = "0.4"
android_logger = "*"
once_cell = "1"
js-sys = "0.3"
wasm-bindgen = "0.2"
wasm-bindgen-futures = "0.4"
web-sys = { version = "0.3", features = ["Document", "Element", "Event", "EventTarget", "File", "FileList", "FileReader", "HtmlElement", "HtmlInputElement", "Node", "Response", "Window", "console"] }
