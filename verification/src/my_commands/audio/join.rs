use vstd::prelude::*;

use crate::my_commands::base_command::{defines, CommandDefinition};

verus! {

pub fn register() -> (definition: CommandDefinition)
    ensures
        defines(definition, "join"@, "Join your current voice channel"@),
{
    CommandDefinition { name: "join", description: "Join your current voice channel", option: None }
}

/// The answer to `join`, from the voice channel the asking user is in.
/// The bot joins that channel whenever there is one, and says so whether
/// or not joining worked.
pub fn run(user_channel: Option<u64>) -> (text: String)
    ensures
        text@ == if user_channel is Some {
            "Joined the channel"@
        } else {
            "Not in a voice channel"@
        },
{
    match user_channel {
        Some(_) => "Joined the channel".to_owned(),
        None => "Not in a voice channel".to_owned(),
    }
}

} // verus!
