pub mod commands;
pub mod config;
pub mod database;
pub mod error;
pub mod handlers;
pub mod services;
pub mod text;
pub mod types;
pub mod utils;
