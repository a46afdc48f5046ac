[package]
name = "apf_engine"
version = "0.1.0"
edition = "2021"
publish = false

[dependencies]
chrono = "0.4"
uuid = { version = "1", features = ["v4"] }
regex = "1"
serde = { version = "1", features = ["derive"] }
serde_yaml = "*"
once_cell = "1"
tokio-postgres = { version = "0.7", features = ["with-chrono-0_4"] }
deadpool-postgres = "*"
color-eyre = "*"
tokio = { version = "1", features = ["macros", "rt-multi-thread"] }
tokio-pg-mapper = { version = "*", features = ["derive"] }
validator = { version = "*", features = ["derive"] }
int-enum = "*"
log4rs = "*"
ramhorns = "*"
dysql = "*"
dysql-macro = "*"
sqlx = { version = "*", default-features = false, features = ["runtime-tokio", "postgres"] }
