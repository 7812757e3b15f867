use vstd::prelude::*;

use crate::error::MyError;
use crate::strutil::str_eq;
use vstd::string::StringExecFns;

verus! {

/// Result type of the bot's handlers.
pub type HandlerResult = Result<(), MyError>;

/// The bot's chat commands.
#[derive(Clone, Copy, PartialEq, Eq, Structural)]
pub enum Command {
    /// Shows the command list.
    Help,
    /// Starts the enrollment flow.
    Start,
}

impl Command {
    /// The help text listing the available commands, as shown to users.
    pub fn descriptions() -> (r: String)
        ensures
            r@ == "Доступны следующие команды:\n\n/help — Показывает этот текст.\n/start — Запускает операцию добавления подключений к GlebusVPN."@,
    {
        "Доступны следующие команды:\n\n/help — Показывает этот текст.\n/start — Запускает операцию добавления подключений к GlebusVPN.".to_owned()
    }
}

/// Recognizes a chat command in a message text: exactly "/help" or "/start".
pub fn parse_command(text: &str) -> (r: Option<Command>)
    ensures
        text@ == "/help"@ ==> r == Some(Command::Help),
        text@ == "/start"@ ==> r == Some(Command::Start),
        text@ != "/help"@ && text@ != "/start"@ ==> r is None,
{
    proof {
        reveal_strlit("/help");
        reveal_strlit("/start");
        assert(("/help"@).len() == 5);
        assert(("/start"@).len() == 6);
        assert("/help"@ != "/start"@);
    }
    if str_eq(text, "/help") {
        Some(Command::Help)
    } else if str_eq(text, "/start") {
        Some(Command::Start)
    } else {
        None
    }
}

} // verus!
