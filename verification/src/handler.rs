use vstd::prelude::*;

use crate::my_commands::base_command::CommandResponse;

verus! {

/// The slash commands the bot answers.
#[derive(Clone, Copy, Debug, PartialEq, Eq, Structural)]
pub enum CommandKind {
    Ping,
    Leave,
    Play,
    Shuffle,
    Skip,
}

/// The name a command is invoked by.
pub open spec fn command_name_of(kind: CommandKind) -> Seq<char> {
    match kind {
        CommandKind::Ping => "ping"@,
        CommandKind::Leave => "leave"@,
        CommandKind::Play => "play"@,
        CommandKind::Shuffle => "shuffle"@,
        CommandKind::Skip => "skip"@,
    }
}

/// The commands the bot registers, in order.
pub open spec fn all_commands() -> Seq<CommandKind> {
    seq![
        CommandKind::Ping,
        CommandKind::Leave,
        CommandKind::Play,
        CommandKind::Shuffle,
        CommandKind::Skip,
    ]
}

impl CommandKind {
    pub fn command_name(&self) -> (name: &'static str)
        ensures
            name@ == command_name_of(*self),
    {
        match self {
            CommandKind::Ping => "ping",
            CommandKind::Leave => "leave",
            CommandKind::Play => "play",
            CommandKind::Shuffle => "shuffle",
            CommandKind::Skip => "skip",
        }
    }
}

/// The value of a string of decimal digits.
pub open spec fn digits_value(digits: Seq<char>) -> nat
    decreases digits.len(),
{
    if digits.len() == 0 {
        0
    } else {
        digits_value(digits.drop_last()) * 10 + (digits.last() as nat - 48) as nat
    }
}

/// What `u64`'s `FromStr` gives for `text`: an optional `+` followed by at
/// least one ASCII digit, with a value that fits in a `u64`.
pub open spec fn decimal_u64(text: Seq<char>) -> Option<u64> {
    let body = if text.len() > 0 && text[0] == '+' {
        text.drop_first()
    } else {
        text
    };
    if body.len() > 0 && (forall|i: int| 0 <= i < body.len() ==> '0' <= #[trigger] body[i] <= '9')
        && digits_value(body) <= u64::MAX {
        Some(digits_value(body) as u64)
    } else {
        None
    }
}

/// `str::parse::<u64>`: per std's documentation of `u64::from_str_radix`
/// in base 10, an optional `+` followed by decimal digits, rejected where
/// the value overflows.
#[verifier::external_body]
fn parse_u64(text: &str) -> (value: Option<u64>)
    ensures
        value == decimal_u64(text@),
{
    text.parse::<u64>().ok()
}

/// Routes Discord events to the bot's commands.
pub struct Handler;

impl Handler {
    pub fn new() -> (handler: Handler) {
        Handler
    }

    /// The commands the bot registers: ping, leave, play, shuffle, skip.
    pub fn command_list(&self) -> (commands: Vec<CommandKind>)
        ensures
            commands@ == all_commands(),
    {
        let mut commands = Vec::new();
        commands.push(CommandKind::Ping);
        commands.push(CommandKind::Leave);
        commands.push(CommandKind::Play);
        commands.push(CommandKind::Shuffle);
        commands.push(CommandKind::Skip);
        commands
    }

    /// The registered command invoked by `name`, if any.
    pub fn command_map(&self, name: &str) -> (command: Option<CommandKind>)
        ensures
            match command {
                Some(kind) => all_commands().contains(kind) && command_name_of(kind) == name@,
                None => forall|kind: CommandKind| #[trigger]
                    all_commands().contains(kind) ==> command_name_of(kind) != name@,
            },
    {
        let commands = self.command_list();
        let wanted = name.to_owned();
        let mut i: usize = 0;
        while i < commands.len()
            invariant
                0 <= i <= commands.len(),
                commands@ == all_commands(),
                wanted@ == name@,
                forall|j: int| 0 <= j < i ==> command_name_of(#[trigger] commands@[j]) != name@,
            decreases commands.len() - i,
        {
            let kind = commands[i];
            if kind.command_name().to_owned() == wanted {
                assert(commands@[i as int] == kind);
                return Some(kind);
            }
            i = i + 1;
        }
        proof {
            assert forall|kind: CommandKind| #[trigger]
                all_commands().contains(kind) implies command_name_of(kind) != name@ by {
                let j = choose|j: int| 0 <= j < all_commands().len() && all_commands()[j] == kind;
                assert(command_name_of(commands@[j]) != name@);
            }
        }
        None
    }

    /// The guild id written in the configuration, where it is a number.
    pub fn parse_guild_id(&self, text: &str) -> (id: Option<u64>)
        ensures
            id == decimal_u64(text@),
    {
        parse_u64(text)
    }

    /// The answer to a command name the bot does not know.
    pub fn unknown_command(&self) -> (response: CommandResponse)
        ensures
            response matches CommandResponse::String(text) && text@ == "not implemented :("@,
    {
        CommandResponse::String("not implemented :(".to_owned())
    }
}

} // verus!
