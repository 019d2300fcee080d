use vstd::prelude::*;

use crate::my_commands::base_command::{
    answers_with, defines, join_text, CommandDefinition, CommandResponse,
};

verus! {

/// The `leave` command: leaves the guild's voice channel.
pub struct Leave;

impl Leave {
    pub fn command_name(&self) -> (name: &'static str)
        ensures
            name@ == "leave"@,
    {
        "leave"
    }

    pub fn generate_create_command(&self) -> (definition: CommandDefinition)
        ensures
            defines(definition, "leave"@, "Leave the current voice channel"@),
    {
        CommandDefinition {
            name: self.command_name(),
            description: "Leave the current voice channel",
            option: None,
        }
    }

    /// The answer to `leave`. `removal` is `None` where the bot is in no
    /// call of the guild, else what leaving the call gave (the error as
    /// its debug text).
    pub fn run(&self, removal: Option<Result<(), String>>) -> (response: CommandResponse)
        ensures
            answers_with(
                response,
                match removal {
                    None => "Not in a voice channel"@,
                    Some(Ok(())) => "Left voice channel"@,
                    Some(Err(e)) => "Failed: "@ + e@,
                },
            ),
    {
        let text = match removal {
            None => "Not in a voice channel".to_owned(),
            Some(Ok(())) => "Left voice channel".to_owned(),
            Some(Err(e)) => join_text("Failed: ", e.as_str()),
        };
        CommandResponse::String(text)
    }
}

} // verus!
