[package]
name = "simple_network_monitor"
version = "0.1.0"
edition = "2021"
publish = false

[dependencies]
actix-web = "4"
async-trait = "0.1"
chrono = { version = "0.4", features = ["serde"] }
clap = { version = "4", features = ["derive", "env"] }
humantime = "2"
humantime-serde = "1"
r2d2 = "0.8"
rand = "*"
rusqlite = { version = "*", features = ["bundled"] }
serde = { version = "1", features = ["derive"] }
serde_json = "1"
serde_urlencoded = "0.7"
subtle = "2"
surge-ping = "*"
thiserror = "*"
tokio = { version = "1", features = ["full"] }
toml = "*"
tracing = "0.1"
tracing-subscriber = { version = "0.3", features = ["env-filter"] }
utoipa = { version = "*", features = ["actix_extras", "chrono"] }
utoipa-swagger-ui = { version = "*", features = ["actix-web"] }
