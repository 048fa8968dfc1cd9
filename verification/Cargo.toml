[package]
name = "synonym_store"
version = "0.1.0"
edition = "2021"
publish = false

[dependencies]
deunicode = "1"
fst = "0.4"
heed = "0.10"
