[package]
name = "adm_sdk"
version = "0.1.0"
edition = "2021"
publish = false

[dependencies]
anyhow = "1"
async-stream = "0.3"
async-trait = "0.1"
base64 = "0.21"
bytes = "1"
cid = "0.11"
clap = { version = "4", features = ["derive", "env"] }
console = "0.15"
dotenv = "0.15"
fnv = "1"
futures-util = "0.3"
fvm_ipld_encoding = "0.5"
fvm_shared = "4"
hex = "0.4"
humantime = "2"
indicatif = "0.17"
log = "0.4"
num-traits = "0.2"
reqwest = { version = "0.11", features = ["stream", "multipart", "json"] }
serde = { version = "1", features = ["derive"] }
serde_json = "1"
stderrlog = "0.6"
tendermint = "0.31"
tendermint-rpc = { version = "0.31", features = ["http-client"] }
tokio = { version = "1", features = ["macros", "rt-multi-thread", "fs", "io-util", "io-std", "sync", "time"] }
tokio-stream = "0.1"
tokio-util = { version = "0.7", features = ["io"] }
unixfs-v1 = "0.2"
