pub mod adblock_commands;
pub mod app_lifecycle_commands;
pub mod audio_commands;
pub mod config_commands;
pub mod favicon_commands;
pub mod find_commands;
pub mod link_routing_commands;
pub mod resource_commands;
pub mod useragent_commands;
pub mod workspace_commands;
pub mod zoom_commands;
