[package]
name = "seiten"
version = "0.1.0"
edition = "2021"
publish = false

[dependencies]
axum = "*"
chrono = "0.4"
dotenvy = "*"
leptos = { version = "*", features = ["ssr"] }
leptos_axum = "*"
leptos_meta = { version = "*", features = ["ssr"] }
leptos_router = { version = "*", features = ["ssr"] }
quick-xml = { version = "*", features = ["serialize"] }
reqwest = { version = "*", default-features = false }
rust-fuzzy-search = "*"
scraper = "*"
sea-orm = { version = "*", default-features = false, features = ["macros", "sqlx-sqlite", "runtime-tokio", "with-chrono", "with-uuid"] }
serde = { version = "1", features = ["derive"] }
tokio = { version = "1", features = ["rt-multi-thread", "macros", "net"] }
url = "2"
uuid = { version = "1", features = ["v4"] }
