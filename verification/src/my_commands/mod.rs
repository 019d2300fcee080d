pub mod audio;
pub mod base_command;
pub mod manager;
pub mod ping;
