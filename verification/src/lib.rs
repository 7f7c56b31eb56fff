
pub mod auth;
pub mod config;
pub mod text;
pub mod utils;
pub mod info;
pub mod player;
pub mod json;
pub mod session;
pub mod webapi;
pub mod commands;
