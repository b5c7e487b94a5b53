[package]
name = "templating"
version = "0.1.0"
edition = "2021"
publish = false

[dependencies]
handlebars = "=4.5.0"
anyhow = "1"
async-trait = "0.1"
clap = { version = "4", features = ["derive", "env"] }
dotenv = "0.15"
madtofan-microservice-common = "=0.1.1"
sqlx = { version = "0.6", features = ["postgres", "runtime-tokio-rustls", "time"] }
tokio = { version = "1", features = ["macros", "rt-multi-thread"] }
tonic = "0.8"
tracing = "0.1"
tracing-subscriber = { version = "0.3", features = ["env-filter"] }
