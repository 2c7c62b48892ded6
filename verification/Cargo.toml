[package]
name = "zero2prod_harness"
version = "0.1.0"
edition = "2021"
publish = false

[dependencies]
uuid = { version = "1", features = ["v4"] }
once_cell = "1"
secrecy = "0.8"
tokio = { version = "1", default-features = false, features = ["rt-multi-thread", "macros", "net", "time"] }
sqlx = { version = "0.8", default-features = false, features = ["runtime-tokio", "postgres", "migrate"] }
actix-web = { version = "4", default-features = false, features = ["macros"] }
