//! Verified core of a Discord bot that keeps shared movie watch-lists.

pub mod text;
pub mod tokens;
pub mod movie;
pub mod utils;
pub mod http;
pub mod db;
pub mod commands;
