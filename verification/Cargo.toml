[package]
name = "bing_search"
version = "0.1.0"
edition = "2021"
publish = false

[dependencies]
select = "*"
reqwest = { version = "*", default-features = false, features = ["blocking", "cookies"] }
