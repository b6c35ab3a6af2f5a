[package]
name = "gql_promise"
version = "0.1.0"
edition = "2021"
publish = false

[dependencies]
poll-promise = "=0.3.0"
graphql_client = { version = "=0.16.0", features = ["reqwest-blocking"] }
reqwest = { version = "=0.12.28", default-features = false, features = ["blocking", "json"] }
log = "=0.4.34"
