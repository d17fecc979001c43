[package]
name = "smithy_query"
version = "0.1.0"
edition = "2021"
publish = false

[dependencies]
itoa = "=1.0.18"
ryu = "=1.0.23"
urlencoding = "=2.1.3"
