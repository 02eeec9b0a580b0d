[package]
name = "img_comp"
version = "0.1.0"
edition = "2021"
publish = false

[dependencies]
image = "0.24"
lambda_runtime = "0.8"
rayon = "1"
serde = { version = "1", features = ["derive"] }
tokio = { version = "1", features = ["macros", "rt-multi-thread"] }
tracing = "0.1"
tracing-subscriber = { version = "0.3", default-features = false, features = ["fmt"] }
