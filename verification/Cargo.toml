[package]
name = "xmpp_proto"
version = "0.1.0"
edition = "2021"
publish = false

[dependencies]
elementtree = "1.2.3"
xml-rs = "0.8.29"
circular = "0.3.0"
uuid = { version = "1", features = ["v4"] }
regex = "1"
base64 = "0.13.1"
sasl = "0.5.2"
futures = "0.1.31"
tokio-core = "0.1.18"
tokio-io = "0.1.13"
tokio-tls = "0.2.1"
native-tls = "0.2.18"
bytes = "0.4"
