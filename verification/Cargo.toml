[package]
name = "portfolio"
version = "0.1.0"
edition = "2021"
publish = false

[dependencies]
slug = "0.1"
pulldown-cmark = { version = "0.9", default-features = false }
serde = { version = "1", features = ["derive"] }
actix-web = { version = "4", default-features = false, features = ["macros", "cookies", "secure-cookies"] }
actix-session = { version = "0.9", features = ["cookie-session"] }
reqwest = { version = "0.11", default-features = false, features = ["json"] }
oauth2 = { version = "4", default-features = false }
once_cell = "1"
tracing = "0.1"
