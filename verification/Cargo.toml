[package]
name = "ledger_rdf"
version = "0.1.0"
edition = "2021"
publish = false

[dependencies]
chrono = { version = "0.4", default-features = false, features = ["std", "clock"] }
oxrdf = "0.3"
oxrdfio = "0.2"
serde_json = "1"
uuid = { version = "1", features = ["v7"] }
sqlx = { version = "0.8", default-features = false, features = ["postgres", "uuid", "chrono", "json", "derive", "macros", "runtime-tokio"] }
