[package]
name = "short_url"
version = "0.1.0"
edition = "2021"
publish = false

[dependencies]
base62 = "*"
cfg-if = "1"
js-sys = "0.3"
mime_guess = "2"
rand = "0.7"
serde = { version = "1", features = ["derive"] }
serde_json = "1"
url = "2"
wasm-bindgen = { version = "0.2", features = ["serde-serialize"] }
wasm-bindgen-futures = "0.4"
web-sys = { version = "0.3", features = ["Headers", "Request", "Response", "ResponseInit"] }
wee_alloc = "0.4"
