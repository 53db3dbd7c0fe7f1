[package]
name = "chance_encounter"
version = "0.1.0"
edition = "2021"
publish = false

[dependencies]
chrono = "0.4"
serde = { version = "1", features = ["derive"] }
serde_json = "1"
quick-xml = { version = "*", features = ["serialize"] }
rstar = "0.12"
leptos = { version = "0.6", features = ["csr"] }
leptos_workers = "*"
web-sys = { version = "0.3", features = ["File", "FileList", "FileReader", "HtmlInputElement", "Window"] }
wasm-bindgen = "0.2"
console_log = "1"
console_error_panic_hook = "0.1"
log = "0.4"
shrinkwraprs = "0.3"
