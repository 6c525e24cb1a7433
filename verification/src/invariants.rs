//! What holds of every command and every question, whatever the records.

use vstd::prelude::*;
use crate::character::Status;
use crate::contract::{answer_to, query, query_outcome, state_after};
use crate::error::ContractError;
use crate::geometry::Direction;
use crate::guard::is_host;
use crate::msg::{ExecuteMsg, QueryMsg, QueryResponse, Response};
use crate::state::{State, StateView};

verus! {

/// A command that fails leaves every record as it was.
pub proof fn failure_changes_nothing(state: StateView, sender: Seq<char>, msg: ExecuteMsg)
    requires
        answer_to(state, sender, msg) is Err,
    ensures
        state_after(state, sender, msg) == state,
{
}

/// A move that goes through leaves the character on a square of the grid: both
/// coordinates that it reports lie in `0..=7`, and they are where the
/// character stands.
pub proof fn moves_end_on_the_grid(state: StateView, sender: Seq<char>, direction: i32)
    ensures
        answer_to(state, sender, ExecuteMsg::Move { direction }) matches Ok(response) ==> {
            let after = state_after(state, sender, ExecuteMsg::Move { direction }).character;
            &&& response == Response::Move {
                x: after.position.x,
                y: after.position.y,
                health: after.health,
            }
            &&& 0 <= after.position.x <= 7
            &&& 0 <= after.position.y <= 7
        },
{
}

/// No command raises the character's health or takes it below 0: after a
/// command the health is what it was, or less.  Only a move and an attack that
/// go through can change it.
pub proof fn health_never_rises(state: StateView, sender: Seq<char>, msg: ExecuteMsg)
    ensures
        0 <= state_after(state, sender, msg).character.health <= state.character.health,
        state_after(state, sender, msg).character.health != state.character.health ==> {
            &&& msg is Move || msg is Attack
            &&& answer_to(state, sender, msg) is Ok
        },
{
}

/// A move onto a tile that is closed fails as blocked, and leaves the
/// character where it stood with the health it had.
pub proof fn blocked_move_changes_nothing(state: StateView, sender: Seq<char>, direction: i32)
    requires
        state.character.status() == Status::Active,
        Direction::of_code(direction) matches Some(d) && state.character.position.neighbor(d)
            matches Some(candidate) && !state.board.tiles[candidate.index()].moveable,
    ensures
        answer_to(state, sender, ExecuteMsg::Move { direction }) == Err::<Response, ContractError>(
            ContractError::Blocked,
        ),
        state_after(state, sender, ExecuteMsg::Move { direction }) == state,
{
}

/// A move off the grid fails as out of bounds, and leaves the character where
/// it stood.
pub proof fn move_off_the_grid_changes_nothing(
    state: StateView,
    sender: Seq<char>,
    direction: i32,
)
    requires
        state.character.status() == Status::Active,
        Direction::of_code(direction) matches Some(d) && state.character.position.neighbor(d)
            is None,
    ensures
        answer_to(state, sender, ExecuteMsg::Move { direction }) == Err::<Response, ContractError>(
            ContractError::OutOfBounds,
        ),
        state_after(state, sender, ExecuteMsg::Move { direction }) == state,
{
}

/// An attack by anyone but the host fails as unauthorized and leaves every
/// record as it was, whatever the direction and the character's health.
pub proof fn unauthorized_attack_changes_nothing(
    state: StateView,
    sender: Seq<char>,
    direction: i32,
)
    requires
        !is_host(sender, state.board),
    ensures
        answer_to(state, sender, ExecuteMsg::Attack { direction }) == Err::<
            Response,
            ContractError,
        >(ContractError::Unauthorized),
        state_after(state, sender, ExecuteMsg::Attack { direction }) == state,
{
}

/// A move asks for no privilege: whoever sends it, it does the same.
pub proof fn anyone_may_move(
    state: StateView,
    sender: Seq<char>,
    other: Seq<char>,
    direction: i32,
)
    ensures
        answer_to(state, sender, ExecuteMsg::Move { direction }) == answer_to(
            state,
            other,
            ExecuteMsg::Move { direction },
        ),
        state_after(state, sender, ExecuteMsg::Move { direction }) == state_after(
            state,
            other,
            ExecuteMsg::Move { direction },
        ),
{
}

/// Commands keep well-formed records well formed.  No command changes the
/// board, its host, or the character's id and abilities.
pub proof fn commands_keep_records_wf(state: StateView, sender: Seq<char>, msg: ExecuteMsg)
    ensures
        state.wf() ==> state_after(state, sender, msg).wf(),
        state_after(state, sender, msg).board == state.board,
        state_after(state, sender, msg).character.id == state.character.id,
        state_after(state, sender, msg).character.abilities == state.character.abilities,
        state_after(state, sender, msg).studentacc.admin == state.studentacc.admin,
{
}

/// Defeat is final.  Once the character has no health left, no command
/// changes it: a move fails as defeated, and so does the host's attack.
pub proof fn defeat_is_terminal(state: StateView, sender: Seq<char>, msg: ExecuteMsg)
    requires
        state.character.status() == Status::Defeated,
    ensures
        state_after(state, sender, msg).character == state.character,
        state_after(state, sender, msg).character.status() == Status::Defeated,
        msg is Move ==> answer_to(state, sender, msg) == Err::<Response, ContractError>(
            ContractError::CharacterDefeated,
        ),
        msg is Attack && is_host(sender, state.board) ==> answer_to(state, sender, msg) == Err::<
            Response,
            ContractError,
        >(ContractError::CharacterDefeated),
{
}

/// The character is defeated after a command exactly when the command took its
/// last health, or it was defeated before.
pub proof fn defeat_comes_with_the_last_health(
    state: StateView,
    sender: Seq<char>,
    msg: ExecuteMsg,
)
    ensures
        state_after(state, sender, msg).character.status() == Status::Defeated <==> state_after(
            state,
            sender,
            msg,
        ).character.health == 0,
        state.character.status() == Status::Defeated ==> state_after(
            state,
            sender,
            msg,
        ).character.status() == Status::Defeated,
{
}

/// Asking twice gives the same answer: whatever two calls of [`query`] return
/// on the same records and the same question, the two results say the same.
pub proof fn answers_repeat(
    state: State,
    msg: QueryMsg,
    first: Result<QueryResponse, ContractError>,
    second: Result<QueryResponse, ContractError>,
)
    requires
        call_ensures(query, (&state, msg), first),
        call_ensures(query, (&state, msg), second),
    ensures
        first is Ok <==> second is Ok,
        first matches Ok(a) ==> second matches Ok(b) && a@ == b@,
        first matches Err(e) ==> second == Err::<QueryResponse, ContractError>(e),
{
}

/// A command that fails changes no answer; a move or an attack changes no
/// answer about the student's record; an edit of that record changes no answer
/// about the character.
pub proof fn answers_follow_the_records(
    state: StateView,
    sender: Seq<char>,
    msg: ExecuteMsg,
    question: QueryMsg,
)
    ensures
        answer_to(state, sender, msg) is Err ==> query_outcome(
            state_after(state, sender, msg),
            question,
        ) == query_outcome(state, question),
        (msg is Move || msg is Attack) && question is GetStudentAcc ==> query_outcome(
            state_after(state, sender, msg),
            question,
        ) == query_outcome(state, question),
        !(msg is Move || msg is Attack) && !(question is GetStudentAcc) ==> query_outcome(
            state_after(state, sender, msg),
            question,
        ) == query_outcome(state, question),
{
}

} // verus!
