[package]
name = "mediaschema"
version = "0.1.0"
edition = "2021"
publish = false

[dependencies]
uuid = { version = "1", features = ["v7"] }
jiff = "*"
mediaframe = "*"
mediatime = "*"
indexmap = "2"
smol_str = "*"
bytes = "1"
thiserror = "2"
derive_more = { version = "2", features = ["is_variant", "display"] }
bitflags = "2"
