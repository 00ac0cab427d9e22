//! Commands typed at the interactive prompt.
use crate::text::same_text;
use vstd::prelude::*;

verus! {

/// A command read from one line of user input.
#[derive(Debug)]
pub enum Cmd {
    Quit,
    Chat(String),
    RefreshAll,
    RefreshConv,
    RefreshInst,
    RefreshFiles,
}

/// The command that a line of input stands for.
pub open spec fn cmd_of(input: Seq<char>) -> CmdKind {
    if input == "/q"@ {
        CmdKind::Quit
    } else if input == "/r"@ || input == "/ra"@ {
        CmdKind::RefreshAll
    } else if input == "/ri"@ {
        CmdKind::RefreshInst
    } else if input == "/rf"@ {
        CmdKind::RefreshFiles
    } else if input == "/rc"@ {
        CmdKind::RefreshConv
    } else {
        CmdKind::Chat
    }
}

/// The variant of a [`Cmd`], without its payload.
#[derive(Debug, Clone, Copy, PartialEq, Eq, Structural)]
pub enum CmdKind {
    Quit,
    Chat,
    RefreshAll,
    RefreshConv,
    RefreshInst,
    RefreshFiles,
}

impl Cmd {
    pub open spec fn kind(&self) -> CmdKind {
        match self {
            Cmd::Quit => CmdKind::Quit,
            Cmd::Chat(_) => CmdKind::Chat,
            Cmd::RefreshAll => CmdKind::RefreshAll,
            Cmd::RefreshConv => CmdKind::RefreshConv,
            Cmd::RefreshInst => CmdKind::RefreshInst,
            Cmd::RefreshFiles => CmdKind::RefreshFiles,
        }
    }

    /// Reads a command: the fixed words select a refresh or quit, and any
    /// other line is a chat message, kept as typed.
    pub fn from_input(input: String) -> (r: Cmd)
        ensures
            r.kind() == cmd_of(input@),
            r matches Cmd::Chat(m) ==> m@ == input@,
    {
        if same_text(input.as_str(), "/q") {
            Cmd::Quit
        } else if same_text(input.as_str(), "/r") || same_text(input.as_str(), "/ra") {
            Cmd::RefreshAll
        } else if same_text(input.as_str(), "/ri") {
            Cmd::RefreshInst
        } else if same_text(input.as_str(), "/rf") {
            Cmd::RefreshFiles
        } else if same_text(input.as_str(), "/rc") {
            Cmd::RefreshConv
        } else {
            Cmd::Chat(input)
        }
    }
}

} // verus!
