[package]
name = "sql_facade"
version = "0.1.0"
edition = "2021"
publish = false

[dependencies]
sqlparser = { version = "*", features = ["serde"] }
serde = { version = "*", features = ["derive"] }
serde_json = "*"
wasm-bindgen = "*"
serde-wasm-bindgen = "*"
console_error_panic_hook = "*"
