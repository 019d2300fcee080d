use vstd::prelude::*;

verus! {

/// What a command hands back to the interaction.
#[derive(Debug)]
pub enum CommandResponse {
    /// The command answered the interaction itself.
    InternallyHandled,
    /// Text to answer the interaction with.
    String(String),
}

/// A required or optional string argument of a slash command.
#[derive(Debug)]
pub struct StringOption {
    pub name: &'static str,
    pub description: &'static str,
    pub required: bool,
}

/// How a slash command is announced to Discord.
#[derive(Debug)]
pub struct CommandDefinition {
    pub name: &'static str,
    pub description: &'static str,
    pub option: Option<StringOption>,
}

/// `response` answers with exactly `text`.
pub open spec fn answers_with(response: CommandResponse, text: Seq<char>) -> bool {
    response matches CommandResponse::String(s) && s@ == text
}

/// `definition` announces a command of this name and description with no argument.
pub open spec fn defines(definition: CommandDefinition, name: Seq<char>, description: Seq<char>) -> bool {
    &&& definition.name@ == name
    &&& definition.description@ == description
    &&& definition.option is None
}

/// `definition` announces a command of this name and description that takes
/// one required string argument named and described so.
pub open spec fn defines_with_option(
    definition: CommandDefinition,
    name: Seq<char>,
    description: Seq<char>,
    option_name: Seq<char>,
    option_description: Seq<char>,
) -> bool {
    &&& definition.name@ == name
    &&& definition.description@ == description
    &&& definition.option matches Some(o) && o.name@ == option_name && o.description@
        == option_description && o.required
}

/// Appends `tail` to `head`.
pub fn join_text(head: &str, tail: &str) -> (text: String)
    ensures
        text@ == head@ + tail@,
{
    let mut text = head.to_owned();
    text.append(tail);
    text
}

} // verus!
