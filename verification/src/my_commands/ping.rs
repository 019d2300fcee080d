use vstd::prelude::*;

use crate::my_commands::base_command::{answers_with, defines, CommandDefinition, CommandResponse};

verus! {

/// The `ping` command: answers `pong`.
pub struct Ping;

impl Ping {
    pub fn command_name(&self) -> (name: &'static str)
        ensures
            name@ == "ping"@,
    {
        "ping"
    }

    pub fn generate_create_command(&self) -> (definition: CommandDefinition)
        ensures
            defines(definition, "ping"@, "A ping command"@),
    {
        CommandDefinition { name: self.command_name(), description: "A ping command", option: None }
    }

    pub fn run(&self) -> (response: CommandResponse)
        ensures
            answers_with(response, "pong"@),
    {
        CommandResponse::String("pong".to_owned())
    }
}

} // verus!
