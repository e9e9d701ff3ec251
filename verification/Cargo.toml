[package]
name = "gitarena"
version = "0.1.0"
edition = "2021"
publish = false

[dependencies]
actix-web = { version = "=4.18.1", default-features = false }
anyhow = "=1.0.104"
bstr = "=0.2.17"
git-actor = "=0.3.3"
git-features = "=0.16.2"
git-hash = "=0.5.1"
git-lock = "=0.3.2"
git-object = "=0.12.2"
git-odb = "=0.20.2"
git-pack = { version = "=0.8.2", features = ["pack-cache-lru-dynamic"] }
git-ref = "=0.5.4"
git-repository = { version = "=0.7.2", default-features = false, features = ["local"] }
git2 = { version = "=0.13.25", default-features = false }
log = "=0.4.34"
num_cpus = "=1.17.0"
serde = { version = "=1.0.229", features = ["derive"] }
sqlx = { version = "=0.8.6", default-features = false, features = ["postgres", "runtime-tokio", "derive"] }
