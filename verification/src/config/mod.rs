pub mod defaults;
pub mod manager;
pub mod models;
