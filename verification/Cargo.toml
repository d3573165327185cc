[package]
name = "sql_federation"
version = "0.1.0"
edition = "2021"
publish = false

[dependencies]
arrow = "=58.4.0"
arrow-odbc = "=25.1.1"
async-trait = "=0.1.92"
bb8 = "=0.9.1"
bb8-postgres = "=0.9.0"
datafusion = { version = "=54.1.0", default-features = false, features = ["sql"] }
mysql_async = { version = "=0.37.1", default-features = false, features = ["minimal"] }
odbc-api = "=28.2.0"
postgres-native-tls = "=0.5.3"
snafu = "=0.9.2"
tokio-postgres = "=0.7.18"
tracing = "=0.1.44"
