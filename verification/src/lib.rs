//! A small URL shortener: short codes, API keys, SQLite-backed storage and
//! the decisions behind each HTTP request and management command.

pub mod api_key;
pub mod cli;
pub mod code;
pub mod config;
pub mod database;
pub mod server;
pub mod sqlite;
pub mod text;
pub mod version;

pub use code::{generate_code, is_valid_code};
pub use config::Config;
pub use database::{Database, DatabaseError, UrlInfo};
pub use server::Shortener;
pub use version::version_string;
