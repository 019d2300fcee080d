pub mod play;
pub mod playlist;

use vstd::prelude::*;

use crate::my_commands::base_command::{defines_with_option, CommandDefinition};

verus! {

/// The playlist-management commands announced to Discord: playlist.
pub fn register_all() -> (definitions: Vec<CommandDefinition>)
    ensures
        definitions@.len() == 1,
        defines_with_option(
            definitions@[0],
            "playlist"@,
            "manage the playlist"@,
            "url"@,
            "the link where the youtube playlist is"@,
        ),
{
    let mut definitions = Vec::new();
    definitions.push(playlist::register());
    definitions
}

} // verus!
