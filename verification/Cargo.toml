[package]
name = "ponoma"
version = "0.1.0"
edition = "2021"
publish = false

[dependencies]
anyhow = "1"
bytes = "1"
futures-core = "0.3"
futures-util = "0.3"
http = "1"
http-body-util = "0.1"
hyper = { version = "1", features = ["client", "http1"] }
hyper-util = { version = "0.1", features = ["client-legacy", "http1", "tokio"] }
mime = "0.3"
percent-encoding = "2"
proc-macro2 = "1"
quote = "1"
rmcp = { version = "*", features = ["server", "transport-io"] }
serde = { version = "1", features = ["derive"] }
serde_json = "1"
sqlx = { version = "*", default-features = false, features = ["runtime-tokio", "sqlite"] }
syn = { version = "2", features = ["full"] }
thiserror = "2"
tokio = { version = "1", features = ["macros", "rt-multi-thread", "net"] }
uuid = { version = "1", features = ["v4"] }
