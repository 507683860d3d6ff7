[package]
name = "cedilla"
version = "0.1.0"
edition = "2021"
publish = false

[dependencies]
url = "2"
percent-encoding = "2"
image = { version = "0.25", default-features = false, features = ["png"] }
jiff = "0.2"
arboard = "3"
reqwest = { version = "0.12", default-features = false }
anywho = "*"
