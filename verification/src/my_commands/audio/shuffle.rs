use std::collections::HashMap;
use vstd::prelude::*;

use crate::my_commands::base_command::{answers_with, defines, CommandDefinition, CommandResponse};
use crate::playlist::internal::{opposite_mode, Playlist};
use crate::playlist::key::{mode_message, switch_shuffle};

verus! {

/// The `shuffle` command: answers with the play mode a switch announces.
pub struct Shuffle;

impl Shuffle {
    pub fn command_name(&self) -> (name: &'static str)
        ensures
            name@ == "shuffle"@,
    {
        "shuffle"
    }

    pub fn generate_create_command(&self) -> (definition: CommandDefinition)
        ensures
            defines(definition, "shuffle"@, "shuffle the queue"@),
    {
        CommandDefinition { name: self.command_name(), description: "shuffle the queue", option: None }
    }

    /// The answer to `shuffle` in a guild, from the guild's playlist.
    pub fn run<T>(&self, playlists: &mut HashMap<u64, Playlist<T>>, guild_id: u64) -> (response:
        CommandResponse)
        ensures
            final(playlists)@ == old(playlists)@,
            answers_with(
                response,
                if old(playlists)@.contains_key(guild_id) {
                    mode_message(opposite_mode(old(playlists)@[guild_id]@.play_state))
                } else {
                    "Missing playlist"@
                },
            ),
    {
        let text = match switch_shuffle(playlists, guild_id) {
            Ok(message) => message,
            Err(err) => err,
        };
        CommandResponse::String(text)
    }
}

} // verus!
