//! Who may do what: attacks are the host's alone, moves are open to all.

use vstd::prelude::*;
use crate::board::{Board, BoardView};

verus! {

/// The answer of the guard.
#[derive(Clone, Copy, Debug, PartialEq, Eq, Structural)]
pub enum Authorization {
    Allowed,
    Unauthorized,
}

/// The caller is the host of the board when the two identities are the same
/// text.
pub open spec fn is_host(caller: Seq<char>, board: BoardView) -> bool {
    caller == board.host
}

/// Decides whether `caller` may attack on `board`: the host may, nobody else.
pub fn check(caller: &String, board: &Board) -> (r: Authorization)
    ensures
        r == if is_host(caller@, board@) {
            Authorization::Allowed
        } else {
            Authorization::Unauthorized
        },
{
    if *caller == board.host {
        Authorization::Allowed
    } else {
        Authorization::Unauthorized
    }
}

} // verus!
