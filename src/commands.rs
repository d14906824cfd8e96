use vstd::prelude::*;

use crate::text::str_eq;

verus! {

/// The slash commands the bot answers.
#[derive(Clone, Copy, Debug, PartialEq, Eq, Structural)]
pub enum Command {
    Daily,
    Pending,
    Transactions,
    Nya,
}

/// The command a name invokes, if any.
pub open spec fn command_named(s: Seq<char>) -> Option<Command> {
    if s == "daily"@ {
        Some(Command::Daily)
    } else if s == "pending"@ {
        Some(Command::Pending)
    } else if s == "transactions"@ {
        Some(Command::Transactions)
    } else if s == "nya"@ {
        Some(Command::Nya)
    } else {
        None
    }
}

impl Command {
    /// The command invoked by name; `None` for a name the bot does not know.
    pub fn parse(name: &str) -> (r: Option<Command>)
        ensures
            r == command_named(name@),
    {
        proof {
            reveal_strlit("daily");
            reveal_strlit("pending");
            reveal_strlit("transactions");
            reveal_strlit("nya");
        }
        if str_eq(name, "daily") {
            Some(Command::Daily)
        } else if str_eq(name, "pending") {
            Some(Command::Pending)
        } else if str_eq(name, "transactions") {
            Some(Command::Transactions)
        } else if str_eq(name, "nya") {
            Some(Command::Nya)
        } else {
            None
        }
    }
}

} // verus!
