[package]
name = "planchet"
version = "0.1.0"
edition = "2021"
publish = false

[dependencies]
async-trait = "*"
base64 = "*"
chrono = { version = "*", features = ["serde"] }
clap = { version = "*", features = ["derive", "env"] }
futures = "*"
http = "*"
isolang = "*"
reqwest = { version = "*", default-features = false, features = ["json"] }
reqwest-middleware = "*"
rust_decimal = "*"
serde = { version = "*", features = ["derive"] }
serde_json = "*"
tabled = "*"
tokio = { version = "*", features = ["macros", "rt-multi-thread"] }
tracing = "*"
tracing-subscriber = { version = "*", features = ["env-filter"] }
url = { version = "*", features = ["serde"] }
