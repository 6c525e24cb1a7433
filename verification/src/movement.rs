//! Moving the character one square, and what the square does to it.

use vstd::prelude::*;
use crate::board::{grid_wf, tile_on, Board, BoardView};
use crate::character::{Character, Status};
use crate::error::ContractError;
use crate::geometry::{Direction, Position};
use crate::tile::TileKind;

verus! {

/// What a move does.  In this order: a defeated character does not move; the
/// direction must be a code; the square one step away must lie on the grid;
/// its tile must be open.  Then the character stands on that square, and has
/// lost the health that the tile takes.  Nothing else about it changes.
pub open spec fn move_outcome(board: BoardView, character: Character, direction: i32) -> Result<
    Character,
    ContractError,
> {
    if character.status() == Status::Defeated {
        Err(ContractError::CharacterDefeated)
    } else {
        match Direction::of_code(direction) {
            None => Err(ContractError::InvalidDirection),
            Some(d) => match character.position.neighbor(d) {
                None => Err(ContractError::OutOfBounds),
                Some(candidate) => {
                    let tile = board.tiles[candidate.index()];
                    if !tile.moveable {
                        Err(ContractError::Blocked)
                    } else {
                        Ok(character.moved(candidate, tile.kind.hazard()))
                    }
                },
            },
        }
    }
}

/// Moves the character one step in the direction that `direction` is the code
/// of.  The result is the character after the move; on an error nothing has
/// moved.
pub fn apply_move(board: &Board, character: &Character, direction: i32) -> (r: Result<
    Character,
    ContractError,
>)
    ensures
        r == move_outcome(board@, *character, direction),
        r matches Ok(after) ==> {
            &&& after.position.in_bounds()
            &&& after.health <= character.health
            &&& after.id == character.id
            &&& after.abilities == character.abilities
        },
{
    if character.is_defeated() {
        return Err(ContractError::CharacterDefeated);
    }
    let heading = match Direction::decode(direction) {
        Ok(d) => d,
        Err(e) => {
            return Err(e);
        },
    };
    let candidate = match character.position.step(heading) {
        Some(p) => p,
        None => {
            return Err(ContractError::OutOfBounds);
        },
    };
    let tile = match board.tile_at(candidate) {
        Some(t) => t,
        None => {
            return Err(ContractError::OutOfBounds);
        },
    };
    if !tile.moveable {
        return Err(ContractError::Blocked);
    }
    let health: u32 = match tile.kind {
        TileKind::DamageInducer { damage } => character.health.saturating_sub(damage),
        _ => character.health,
    };
    Ok(Character { id: character.id, health, abilities: character.abilities, position: candidate })
}

/// A move that succeeds ends on a square of the grid, one step from where it
/// began.
pub proof fn move_stays_on_the_grid(board: BoardView, character: Character, direction: i32)
    ensures
        move_outcome(board, character, direction) matches Ok(after) ==> {
            &&& after.position.in_bounds()
            &&& Direction::of_code(direction) matches Some(d)
            &&& character.position.neighbor(d) == Some(after.position)
        },
{
}

/// A move never raises health and never takes it below 0: the health after is
/// the health before less the damage of the tile entered, or 0 where that
/// would be negative.  On open ground it is unchanged.
pub proof fn move_only_lowers_health(board: BoardView, character: Character, direction: i32)
    ensures
        move_outcome(board, character, direction) matches Ok(after) ==> {
            let damage = board.tiles[after.position.index()].kind.hazard();
            &&& 0 <= after.health <= character.health
            &&& after.health == if character.health - damage < 0 {
                0
            } else {
                character.health - damage
            }
            &&& damage == 0 ==> after.health == character.health
        },
{
}

/// A move keeps a well-formed character well formed, and changes neither its
/// id nor its abilities.
pub proof fn move_keeps_character_wf(board: BoardView, character: Character, direction: i32)
    requires
        character.wf(),
    ensures
        move_outcome(board, character, direction) matches Ok(after) ==> {
            &&& after.wf()
            &&& after.id == character.id
            &&& after.abilities == character.abilities
        },
{
}

/// A move onto a tile that is closed fails as blocked.
pub proof fn closed_tile_blocks(board: BoardView, character: Character, direction: i32)
    requires
        character.status() == Status::Active,
        Direction::of_code(direction) matches Some(d) && character.position.neighbor(d) matches Some(
            candidate,
        ) && !board.tiles[candidate.index()].moveable,
    ensures
        move_outcome(board, character, direction) == Err::<Character, ContractError>(
            ContractError::Blocked,
        ),
{
}

/// Each error of a move comes on exactly the inputs that its rule names, and
/// the move succeeds on all others.
pub proof fn move_errors(board: BoardView, character: Character, direction: i32)
    ensures
        ({
            let outcome = move_outcome(board, character, direction);
            let heading = Direction::of_code(direction);
            let defeated = character.status() == Status::Defeated;
            let candidate = character.position.neighbor(heading->0);
            &&& outcome == Err::<Character, ContractError>(ContractError::CharacterDefeated)
                <==> defeated
            &&& outcome == Err::<Character, ContractError>(ContractError::InvalidDirection)
                <==> !defeated && heading is None
            &&& outcome == Err::<Character, ContractError>(ContractError::OutOfBounds)
                <==> !defeated && heading is Some && candidate is None
            &&& outcome == Err::<Character, ContractError>(ContractError::Blocked) <==> !defeated
                && heading is Some && candidate is Some && !board.tiles[candidate->0.index()].moveable
            &&& outcome is Ok <==> !defeated && heading is Some && candidate is Some
                && board.tiles[candidate->0.index()].moveable
            &&& outcome != Err::<Character, ContractError>(ContractError::Unauthorized)
            &&& outcome != Err::<Character, ContractError>(ContractError::NotFound)
        }),
{
}

/// On a grid, a tile blocks a move exactly when it is a blockade.
pub proof fn blockades_block(board: BoardView, position: Position)
    requires
        grid_wf(board.tiles),
        position.in_bounds(),
    ensures
        tile_on(board.tiles, position) matches Some(tile) && (!tile.moveable <==> tile.kind
            == TileKind::Blockade),
{
}

} // verus!
