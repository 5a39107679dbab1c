[package]
name = "request_extract"
version = "0.1.0"
edition = "2021"
publish = false

[dependencies]
http = "1"
bytes = "1"
http-body-util = "0.1"
micro-http = "*"
