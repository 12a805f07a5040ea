pub mod adblock;
pub mod app_manager;
pub mod commands;
pub mod config;
pub mod darkmode;
pub mod downloads;
pub mod hashing;
pub mod notifications;
pub mod number;
pub mod recipes;
pub mod resource_monitor;
pub mod string_map;
pub mod text;
pub mod utils;
pub mod web;
pub mod window_state;
