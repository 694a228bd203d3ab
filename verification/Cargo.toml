[package]
name = "dioxus-material-symbols"
version = "0.1.0"
edition = "2021"
publish = false

[dependencies]
dioxus = { version = "0.4", default-features = false, features = ["macro", "html", "hooks"] }
