[package]
name = "blackjack"
version = "0.1.0"
edition = "2021"
publish = false

[dependencies]
rand = "0.9"
async-trait = "*"
axum = { version = "*", features = ["ws"] }
color-eyre = "*"
config = "*"
crossterm = "*"
indoc = "*"
ratatui = "*"
serde = { version = "*", features = ["derive"] }
serde-aux = "*"
serde_json = "*"
sqlx = { version = "*", default-features = false, features = ["postgres", "runtime-tokio", "uuid", "json", "macros", "derive", "migrate"] }
strum = "*"
strum_macros = "*"
thiserror = "*"
tokio = { version = "*", features = ["rt-multi-thread", "macros", "net"] }
tracing = "*"
tracing-subscriber = { version = "*", features = ["env-filter"] }
tui-big-text = "*"
uuid = { version = "*", features = ["v7"] }
