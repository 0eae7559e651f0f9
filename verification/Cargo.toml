[package]
name = "pgwrap"
version = "0.1.0"
edition = "2021"
publish = false

[dependencies]
bigdecimal = "*"
diesel = { version = "*", default-features = false, features = ["postgres_backend", "numeric"] }
diesel-async = { version = "*", default-features = false }
serde = { version = "*", features = ["derive"] }
thiserror = "*"
