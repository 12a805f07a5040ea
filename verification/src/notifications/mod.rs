pub mod badge_scripts;
pub mod handler;
pub mod scripts;
