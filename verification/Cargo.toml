[package]
name = "dbgate"
version = "0.1.0"
edition = "2021"
publish = false

[dependencies]
base64 = "=0.22.1"
chrono = { version = "=0.4.45", features = ["serde"] }
clickhouse = { version = "=0.15.3", default-features = false }
futures-util = "=0.3.34"
keyring = { version = "=3.6.3", features = ["apple-native", "windows-native"] }
mysql_async = { version = "=0.37.1", default-features = false, features = ["minimal-rust"] }
openssh = "=0.11.6"
oracledb = "=26.0.0-beta.5"
rsfbclient = { version = "=0.29.0", default-features = false, features = ["pure_rust"] }
rusqlite = { version = "=0.41.1", features = ["bundled"] }
scylla = { version = "=1.9.0", features = ["chrono-04"] }
serde = { version = "=1.0.229", features = ["derive"] }
serde_json = "=1.0.154"
thiserror = "=2.0.21"
tiberius = { version = "=0.13.0", default-features = false, features = ["tds73", "chrono", "rustls"] }
tokio = { version = "=1.54.1", features = ["full"] }
tokio-postgres = { version = "=0.7.18", features = ["with-chrono-0_4", "with-serde_json-1", "with-uuid-1"] }
tokio-util = { version = "=0.7.20", features = ["compat"] }
tracing = "=0.1.44"
tracing-subscriber = { version = "=0.3.23", features = ["env-filter"] }
uuid = { version = "=1.29.0", features = ["v4"] }
