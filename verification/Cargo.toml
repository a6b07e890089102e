[package]
name = "ipc_subnet_actor"
version = "0.1.0"
edition = "2021"
publish = false

[dependencies]
anyhow = "1"
cid = "*"
fvm_ipld_blockstore = "*"
fvm_ipld_encoding = "*"
fvm_ipld_hamt = "*"
fvm_shared = "*"
num-derive = "*"
num-traits = "*"
serde = { version = "1", features = ["derive"] }
