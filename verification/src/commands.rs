//! The single-character commands that drive a rover.
use vstd::prelude::*;

verus! {

/// One thing a rover can be told to do.
#[derive(Clone, Copy, Debug, PartialEq, Eq, Structural)]
pub enum Command {
    Forward,
    Backward,
    Left,
    Right,
}

impl Command {
    /// The command that a character stands for: `f`, `b`, `l` and `r`, in
    /// lower case, and nothing else.
    pub open spec fn spec_from_char(c: char) -> Option<Command> {
        if c == 'f' {
            Some(Command::Forward)
        } else if c == 'b' {
            Some(Command::Backward)
        } else if c == 'l' {
            Some(Command::Left)
        } else if c == 'r' {
            Some(Command::Right)
        } else {
            None
        }
    }

    #[verifier::when_used_as_spec(spec_from_char)]
    pub fn from_char(c: char) -> (r: Option<Command>)
        ensures
            r == Self::spec_from_char(c),
    {
        match c {
            'f' => Some(Command::Forward),
            'b' => Some(Command::Backward),
            'l' => Some(Command::Left),
            'r' => Some(Command::Right),
            _ => None,
        }
    }
}

} // verus!
