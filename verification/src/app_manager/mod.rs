pub mod certificate;
pub mod init_script;
pub mod invariants;
pub mod lifecycle;
pub mod session_state;
pub mod state;
pub mod supervisor;
