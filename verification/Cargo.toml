[package]
name = "inth_oauth2_azure"
version = "0.1.0"
edition = "2021"
publish = false

[dependencies]
inth-oauth2 = "=0.16.0"
lazy_static = "=1.5.1"
url = "=1.7.2"
