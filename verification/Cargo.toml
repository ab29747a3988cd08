[package]
name = "ticker_feed"
version = "0.1.0"
edition = "2021"
publish = false

[dependencies]
failure = "=0.1.8"
serde = "=1.0.229"
serde_derive = "=1.0.229"
stdweb = "=0.4.20"
yew = "=0.6.0"
