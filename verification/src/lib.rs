//! Decision logic of a Discord music bot: the per-guild playlist, its queue
//! discipline, command replies, configuration assembly and the small planners
//! that drive downloads and paged playlist fetches.

pub mod playlist;
pub mod config;
pub mod my_commands;
pub mod voice_handlers;
pub mod youtube;
pub mod handler;
