use vstd::prelude::*;

use crate::my_commands::base_command::{defines, join_text, CommandDefinition};

verus! {

/// What happened when deafening was tried.
pub enum DeafenOutcome {
    /// The bot is in no call of the guild.
    NotInCall,
    /// The bot was deafened already.
    AlreadyDeafened,
    /// Deafening was asked for; the error as its debug text.
    Attempted(Result<(), String>),
}

/// The text answering `deafen`.
pub open spec fn deafen_text(outcome: DeafenOutcome) -> Seq<char> {
    match outcome {
        DeafenOutcome::NotInCall => "Not in a voice call"@,
        DeafenOutcome::AlreadyDeafened => "Already deafened"@,
        DeafenOutcome::Attempted(Ok(())) => "Deafened"@,
        DeafenOutcome::Attempted(Err(e)) => "Failed: "@ + e@,
    }
}

pub fn register() -> (definition: CommandDefinition)
    ensures
        defines(definition, "deafen"@, "Deafen the bot"@),
{
    CommandDefinition { name: "deafen", description: "Deafen the bot", option: None }
}

/// The answer to `deafen`.
pub fn run(outcome: DeafenOutcome) -> (text: String)
    ensures
        text@ == deafen_text(outcome),
{
    match outcome {
        DeafenOutcome::NotInCall => "Not in a voice call".to_owned(),
        DeafenOutcome::AlreadyDeafened => "Already deafened".to_owned(),
        DeafenOutcome::Attempted(Ok(())) => "Deafened".to_owned(),
        DeafenOutcome::Attempted(Err(e)) => join_text("Failed: ", e.as_str()),
    }
}

} // verus!
