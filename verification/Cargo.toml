[package]
name = "todo_service"
version = "0.1.0"
edition = "2021"
publish = false

[dependencies]
rocket = { version = "0.5", features = ["json"] }
diesel = { version = "2", features = ["mysql"] }
rocket_sync_db_pools = { version = "0.1", features = ["diesel_mysql_pool"] }
dotenv = "0.15"
