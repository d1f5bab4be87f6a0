//! What a line read from the user asks for.

use vstd::prelude::*;
use crate::commands::{Command, CommandView};
use crate::parse::command_of_line;

verus! {

/// The command for one attempt to read a line. A line that was read asks for
/// the command it denotes, and for `Unknown` where it denotes none; where no
/// line could be read (`None`: the input has ended, was interrupted, or
/// failed) the session is to exit.
pub fn handle_input(line: Option<&str>) -> (command: Command)
    ensures
        match line {
            None => command@ == CommandView::Exit,
            Some(text) => command@ == (match command_of_line(text@) {
                Some(denoted) => denoted,
                None => CommandView::Unknown,
            }),
        },
{
    match line {
        Some(text) => match Command::parse(text) {
            Ok(command) => command,
            Err(_) => Command::Unknown,
        },
        None => Command::Exit,
    }
}

} // verus!
