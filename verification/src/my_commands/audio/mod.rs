pub mod deafen;
pub mod join;
pub mod leave;
pub mod play;
pub mod shuffle;
pub mod skip;

use vstd::prelude::*;

use crate::my_commands::audio::leave::Leave;
use crate::my_commands::audio::shuffle::Shuffle;
use crate::my_commands::base_command::{defines, defines_with_option, CommandDefinition};

verus! {

/// The audio commands announced to Discord: leave, play, shuffle, skip.
pub fn register_all() -> (definitions: Vec<CommandDefinition>)
    ensures
        definitions@.len() == 4,
        defines(definitions@[0], "leave"@, "Leave the current voice channel"@),
        defines_with_option(
            definitions@[1],
            "play"@,
            "Play a track"@,
            "url"@,
            "The link where the video, audio or playlist is located"@,
        ),
        defines(definitions@[2], "shuffle"@, "shuffle the queue"@),
        defines(definitions@[3], "skip"@, "Skip the current song"@),
{
    let mut definitions = Vec::new();
    definitions.push(Leave.generate_create_command());
    definitions.push(play::register());
    definitions.push(Shuffle.generate_create_command());
    definitions.push(skip::register());
    definitions
}

} // verus!
