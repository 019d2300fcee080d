use vstd::prelude::*;

use crate::my_commands::base_command::{defines_with_option, CommandDefinition, StringOption};

verus! {

pub fn register() -> (definition: CommandDefinition)
    ensures
        defines_with_option(
            definition,
            "playlist"@,
            "manage the playlist"@,
            "url"@,
            "the link where the youtube playlist is"@,
        ),
{
    CommandDefinition {
        name: "playlist",
        description: "manage the playlist",
        option: Some(
            StringOption {
                name: "url",
                description: "the link where the youtube playlist is",
                required: true,
            },
        ),
    }
}

/// The answer to `playlist`: the fetch error's text, or a success note
/// once every video was downloaded.
pub fn run(fetched: Result<(), String>) -> (text: String)
    ensures
        text@ == match fetched {
            Ok(()) => "Success!"@,
            Err(e) => e@,
        },
{
    match fetched {
        Ok(()) => "Success!".to_owned(),
        Err(e) => e,
    }
}

} // verus!
