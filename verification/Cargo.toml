[package]
name = "kademlia_contact"
version = "0.1.0"
edition = "2021"
publish = false

[dependencies]
blake2 = "=0.10.6"
primitive-types = "=0.12.2"
rand = "=0.4.6"
serde = "=1.0.229"
uint = "=0.9.5"
