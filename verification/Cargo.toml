[package]
name = "htmx_axum_russh_games"
version = "0.1.0"
edition = "2021"
publish = false

[dependencies]
anyhow = "*"
async-trait = "*"
axum = "*"
clap = { version = "*", features = ["derive"] }
hyper = { version = "*", features = ["http1", "server"] }
hyper-util = { version = "*", features = ["server-auto", "tokio", "service"] }
russh = "*"
termsize = "*"
tokio = { version = "*", features = ["full"] }
tower = "*"
tracing = "*"
tracing-subscriber = { version = "*", features = ["env-filter"] }
