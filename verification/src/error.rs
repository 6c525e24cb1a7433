//! The typed failures of commands and queries.

use vstd::prelude::*;

verus! {

/// Why a command or a query was turned down.  A failure is found before
/// anything is written: the records are as they were.
#[derive(Clone, Copy, Debug, PartialEq, Eq, Structural)]
pub enum ContractError {
    /// The caller lacks the privilege that the command asks for.
    Unauthorized,
    /// The square that a move leads to lies outside the grid.
    OutOfBounds,
    /// The tile that a move leads to cannot be entered.
    Blocked,
    /// The direction is none of the four codes `0..=3`.
    InvalidDirection,
    /// No record goes by the given id or name.
    NotFound,
    /// The character has no health left and takes no more commands.
    CharacterDefeated,
}

} // verus!
