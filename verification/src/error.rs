//! Errors of evaluation, as far as the registry raises or passes them on.

use vstd::prelude::*;

verus! {

/// A place in a script.  The registry itself tracks no positions and
/// reports [`Position::none`]; the caller fills the place in.
#[derive(Clone, Copy, Debug, PartialEq, Eq, Structural, Hash)]
pub struct Position {
    pub line: u16,
    pub pos: u16,
}

impl Position {
    /// No position.
    #[verifier::allow_in_spec]
    pub fn none() -> Position
        returns
            (Position { line: 0, pos: 0 }),
    {
        Position { line: 0, pos: 0 }
    }

    /// Is this no position?
    #[verifier::allow_in_spec]
    pub fn is_none(self) -> bool
        returns
            (self == Position::none()),
    {
        self.line == 0 && self.pos == 0
    }
}

/// What evaluation can fail with.
#[derive(Clone, Debug, PartialEq, Eq)]
pub enum EvalAltResult {
    /// A variable was looked up and not found: its name, and where.
    ErrorVariableNotFound(String, Position),
    /// A callable was handed an argument of another type than it takes:
    /// the position of the argument in the list.
    ErrorMismatchArgument(usize, Position),
    /// A callable failed with a message of its own.
    ErrorRuntime(String, Position),
}

} // verus!
