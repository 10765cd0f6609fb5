[package]
name = "bendsql_trace"
version = "0.1.0"
edition = "2021"
publish = false

[dependencies]
anyhow = "1"
chrono = "0.4"
fern = "0.6"
log = "0.4"
tracing-appender = "0.2"
