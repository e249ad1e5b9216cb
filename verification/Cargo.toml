[package]
name = "atpage"
version = "0.1.0"
edition = "2021"
publish = false

[dependencies]
chrono = "=0.4.45"
slug = "=0.1.6"
pulldown-cmark = { version = "=0.13.6", default-features = false, features = ["html"] }
latex2mathml = "=0.2.3"
itertools = "=0.14.0"
serde = { version = "=1.0.229", features = ["derive"] }
serde_json = "=1.0.154"
leptos = { version = "=0.8.23", features = ["csr"] }
leptos_meta = "=0.8.7"
leptos_router = "=0.8.17"
leptos-use = { version = "=0.16.3", default-features = false, features = ["storage", "use_textarea_autosize"] }
codee = { version = "=0.3.5", features = ["json_serde"] }
reqwest = { version = "=0.12.28", default-features = false, features = ["json"] }
phosphor-leptos = "=0.8.0"
web-sys = { version = "=0.3.107", features = ["Navigator", "Clipboard"] }
