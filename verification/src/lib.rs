pub mod antinuke;
pub mod automod;
pub mod cache;
pub mod commands;
pub mod components;
pub mod config;
pub mod error;
pub mod gateway;
pub mod ids;
pub mod interaction;
pub mod laws;
pub mod music;
pub mod numbers;
pub mod prefix;
pub mod router;
pub mod sanitize;
pub mod schema;
pub mod text;
pub mod ui;
