[package]
name = "indiv_proj2"
version = "0.1.0"
edition = "2021"
publish = false

[dependencies]
csv = "1"
dotenv = "0.15"
mysql_async = { version = "*", default-features = false, features = ["minimal-rust"] }
tokio = { version = "1", features = ["macros", "rt-multi-thread"] }
