use vstd::prelude::*;
use vstd::slice::slice_to_vec;

verus! {

/// A command that the command line recognises.
#[derive(Clone, Copy, Debug, PartialEq, Eq, Structural)]
pub enum Command {
    /// Ends the session.
    Quit,
}

/// A recoverable error reported by the command line.
#[derive(Clone, Debug, PartialEq, Eq)]
pub enum EditError {
    /// The typed command is not recognised; it carries the bytes typed.
    UnknownCommand(Vec<u8>),
}

impl View for EditError {
    type V = Seq<u8>;

    /// The bytes of the command that was not recognised.
    open spec fn view(&self) -> Seq<u8> {
        match self {
            EditError::UnknownCommand(c) => c@,
        }
    }
}

impl EditError {
    /// The message shown to the user.
    pub fn message(&self) -> (r: String)
        ensures
            r@ == "Unknown command"@,
    {
        let r = "Unknown command".to_string();
        r
    }
}

/// The command lines that end the session: `q` and `quit` (in ASCII), matched
/// exactly.
pub open spec fn is_quit(cmd: Seq<u8>) -> bool {
    cmd == seq![0x71u8] || cmd == seq![0x71u8, 0x75u8, 0x69u8, 0x74u8]
}

/// Resolves a typed command line, exactly, with no prefixes or arguments.
pub fn parse_command(cmd: &[u8]) -> (r: Result<Command, EditError>)
    ensures
        is_quit(cmd@) ==> r == Ok::<Command, EditError>(Command::Quit),
        !is_quit(cmd@) ==> r is Err && r->Err_0@ == cmd@,
{
    let n = cmd.len();
    let quit = if n == 1 {
        cmd[0] == 0x71
    } else if n == 4 {
        cmd[0] == 0x71 && cmd[1] == 0x75 && cmd[2] == 0x69 && cmd[3] == 0x74
    } else {
        false
    };
    proof {
        if n == 1 && cmd@[0] == 0x71u8 {
            assert(cmd@ =~= seq![0x71u8]);
        }
        if n == 4 && cmd@[0] == 0x71u8 && cmd@[1] == 0x75u8 && cmd@[2] == 0x69u8 && cmd@[3] == 0x74u8 {
            assert(cmd@ =~= seq![0x71u8, 0x75u8, 0x69u8, 0x74u8]);
        }
    }
    if quit {
        Ok(Command::Quit)
    } else {
        Err(EditError::UnknownCommand(slice_to_vec(cmd)))
    }
}

} // verus!
