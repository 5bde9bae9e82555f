[package]
name = "pmrapp"
version = "0.1.0"
edition = "2021"
publish = false

[dependencies]
anyhow = "=1.0.104"
axum = "=0.6.20"
clap = { version = "=3.2.25", features = ["derive", "env"] }
console_error_panic_hook = "=0.1.7"
console_log = "=1.1.0"
derive_more = "=0.99.20"
dotenv = "=0.15.0"
log = "=0.4.34"
reqwest = { version = "=0.11.27", default-features = false, features = ["json"] }
sauron = "=0.51.0"
serde = { version = "=1.0.229", features = ["derive"] }
serde_json = "=1.0.154"
serde-wasm-bindgen = "=0.4.5"
sqlx = { version = "=0.7.4", default-features = false }
stderrlog = "=0.5.4"
thiserror = "=1.0.69"
tokio = { version = "=1.54.1", features = ["macros", "rt-multi-thread"] }
tower = "=0.4.13"
tower-http = { version = "=0.4.4", features = ["trace"] }
wasm-bindgen-futures = "=0.4.79"
web-sys = { version = "=0.3.106", features = ["History", "Location", "PopStateEvent", "Window"] }
