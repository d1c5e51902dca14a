[package]
name = "edge_runtime"
version = "0.1.0"
edition = "2021"
publish = false

[dependencies]
anyhow = "1"
deno_core = "*"
import_map = "*"
log = "0.4"
serde_json = "1"
tokio = { version = "1", features = ["macros", "net", "rt", "sync", "time"] }
url = "2"
