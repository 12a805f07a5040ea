pub mod engine;
pub mod filter_lists;
