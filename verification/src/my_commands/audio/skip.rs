use vstd::prelude::*;

use crate::my_commands::base_command::{defines, join_text, CommandDefinition};

verus! {

/// What happened when a skip was tried.
pub enum SkipOutcome {
    /// The bot is in no call of the guild.
    NotInCall,
    /// Nothing is playing.
    NoTrack,
    /// The current track was told to stop; the error as its display text.
    Stopped(Result<(), String>),
}

/// The text answering `skip`.
pub open spec fn skip_text(outcome: SkipOutcome) -> Seq<char> {
    match outcome {
        SkipOutcome::NotInCall => "Not in a voice channel"@,
        SkipOutcome::NoTrack => "Error getting the track"@,
        SkipOutcome::Stopped(Ok(())) => "Skipped a song"@,
        SkipOutcome::Stopped(Err(e)) => "Error skipping track: "@ + e@,
    }
}

pub fn register() -> (definition: CommandDefinition)
    ensures
        defines(definition, "skip"@, "Skip the current song"@),
{
    CommandDefinition { name: "skip", description: "Skip the current song", option: None }
}

/// The answer to `skip`.
pub fn run(outcome: SkipOutcome) -> (text: String)
    ensures
        text@ == skip_text(outcome),
{
    match outcome {
        SkipOutcome::NotInCall => "Not in a voice channel".to_owned(),
        SkipOutcome::NoTrack => "Error getting the track".to_owned(),
        SkipOutcome::Stopped(Ok(())) => "Skipped a song".to_owned(),
        SkipOutcome::Stopped(Err(e)) => join_text("Error skipping track: ", e.as_str()),
    }
}

} // verus!
