[package]
name = "spotify_oauth"
version = "0.1.0"
edition = "2021"
publish = false

[dependencies]
base64 = "0.13"
chrono = "0.4"
curl = "0.4"
json = "0.12"
querystring = "1"
url = "2"
webbrowser = "0.8"
