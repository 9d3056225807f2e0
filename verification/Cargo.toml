[package]
name = "h2"
version = "0.1.0"
edition = "2021"
publish = false

[dependencies]
byteorder = "1"
bytes = "0.4"
futures = "0.1"
http = "0.1"
ordermap = "0.2"
string = "0.1"
tokio-io = "0.1"
