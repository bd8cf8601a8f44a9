[package]
name = "openai_qa"
version = "0.1.0"
edition = "2021"
publish = false

[dependencies]
serde = { version = "1", features = ["derive"] }
serde_json = "1"
chrono = "0.4"
markdown = "*"
reqwest = { version = "0.11", default-features = false, features = ["rustls-tls"] }
tokio = { version = "1", features = ["macros", "rt-multi-thread"] }
dioxus = "0.3"
dioxus-free-icons = { version = "0.6", features = ["bootstrap", "font-awesome-brands"] }
