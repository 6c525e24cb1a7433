//! Attacks: the host strikes in a direction, and the character's recorded
//! health pays for it.
//!
//! An instance has one character and so no second actor to strike.  The
//! damage of an attack is resolved against the tile one step away and taken
//! from the attacking character's own health.

use vstd::prelude::*;
use crate::board::{tile_on, Board, BoardView};
use crate::character::{Character, Status};
use crate::error::ContractError;
use crate::geometry::Direction;
use crate::guard::{check, is_host, Authorization};
use crate::tile::Tile;

verus! {

/// What the target's tile adds to an attack: its damage where it is a damage
/// inducer, and nothing otherwise.  A target off the grid has no tile and adds
/// nothing.
pub open spec fn tile_bonus(target: Option<Tile>) -> nat {
    match target {
        Some(tile) => tile.bonus(),
        None => 0,
    }
}

/// The damage of an attack in a direction: the power of the character's two
/// abilities and the bonus of the tile one step away.
pub open spec fn attack_damage(board: BoardView, character: Character, direction: Direction) -> nat {
    let target = match character.position.neighbor(direction) {
        Some(square) => tile_on(board.tiles, square),
        None => None,
    };
    character.power() + tile_bonus(target)
}

/// What an attack does.  In this order: the caller must be the host; a
/// defeated character does not attack; the direction must be a code.  Then
/// the character has lost the damage of the attack, and nothing else about it
/// has changed.
pub open spec fn attack_outcome(
    caller: Seq<char>,
    board: BoardView,
    character: Character,
    direction: i32,
) -> Result<Character, ContractError> {
    if !is_host(caller, board) {
        Err(ContractError::Unauthorized)
    } else if character.status() == Status::Defeated {
        Err(ContractError::CharacterDefeated)
    } else {
        match Direction::of_code(direction) {
            None => Err(ContractError::InvalidDirection),
            Some(d) => Ok(character.hurt(attack_damage(board, character, d))),
        }
    }
}

/// Attacks in the direction that `direction` is the code of, on behalf of
/// `caller`.  The result is the character after the attack; on an error
/// nothing has happened.
pub fn apply_attack(caller: &String, board: &Board, character: &Character, direction: i32) -> (r:
    Result<Character, ContractError>)
    ensures
        r == attack_outcome(caller@, board@, *character, direction),
        r matches Ok(after) ==> {
            &&& after.health <= character.health
            &&& after.position == character.position
            &&& after.id == character.id
            &&& after.abilities == character.abilities
        },
{
    match check(caller, board) {
        Authorization::Allowed => {},
        Authorization::Unauthorized => {
            return Err(ContractError::Unauthorized);
        },
    }
    if character.is_defeated() {
        return Err(ContractError::CharacterDefeated);
    }
    let heading = match Direction::decode(direction) {
        Ok(d) => d,
        Err(e) => {
            return Err(e);
        },
    };
    let target = match character.position.step(heading) {
        Some(square) => board.tile_at(square),
        None => None,
    };
    let bonus: u32 = match target {
        Some(tile) => tile.attack_bonus(),
        None => 0,
    };
    // The sum may pass the largest health there is: past that point more
    // damage changes nothing.
    let damage: u32 = character.attack_power().saturating_add(bonus);
    Ok(character.take_damage(damage))
}

/// An attack by anyone but the host fails as unauthorized, whatever else holds
/// of the character and the direction.
pub proof fn only_the_host_attacks(
    caller: Seq<char>,
    board: BoardView,
    character: Character,
    direction: i32,
)
    requires
        caller != board.host,
    ensures
        attack_outcome(caller, board, character, direction) == Err::<Character, ContractError>(
            ContractError::Unauthorized,
        ),
{
}

/// An attack never raises health and never takes it below 0: the health after
/// is the health before less the damage of the attack, or 0 where that would
/// be negative.  It leaves the character where it stands.
pub proof fn attack_only_lowers_health(
    caller: Seq<char>,
    board: BoardView,
    character: Character,
    direction: i32,
)
    ensures
        attack_outcome(caller, board, character, direction) matches Ok(after) ==> {
            let damage = attack_damage(board, character, Direction::of_code(direction)->0);
            &&& 0 <= after.health <= character.health
            &&& after.health == if character.health - damage < 0 {
                0
            } else {
                character.health - damage
            }
            &&& after.position == character.position
            &&& after.id == character.id
            &&& after.abilities == character.abilities
            &&& character.wf() ==> after.wf()
        },
{
}

/// Every attack does damage: an attack that succeeds lowers the health, since
/// each ability has some power and the character had health left.
pub proof fn attack_always_hurts(
    caller: Seq<char>,
    board: BoardView,
    character: Character,
    direction: i32,
)
    ensures
        attack_outcome(caller, board, character, direction) matches Ok(after) ==> after.health
            < character.health,
{
}

/// Each error of an attack comes on exactly the inputs that its rule names,
/// and the attack succeeds on all others.
pub proof fn attack_errors(caller: Seq<char>, board: BoardView, character: Character, direction: i32)
    ensures
        ({
            let outcome = attack_outcome(caller, board, character, direction);
            let host = is_host(caller, board);
            let defeated = character.status() == Status::Defeated;
            let heading = Direction::of_code(direction);
            &&& outcome == Err::<Character, ContractError>(ContractError::Unauthorized) <==> !host
            &&& outcome == Err::<Character, ContractError>(ContractError::CharacterDefeated)
                <==> host && defeated
            &&& outcome == Err::<Character, ContractError>(ContractError::InvalidDirection)
                <==> host && !defeated && heading is None
            &&& outcome is Ok <==> host && !defeated && heading is Some
            &&& outcome != Err::<Character, ContractError>(ContractError::OutOfBounds)
            &&& outcome != Err::<Character, ContractError>(ContractError::Blocked)
            &&& outcome != Err::<Character, ContractError>(ContractError::NotFound)
        }),
{
}

} // verus!
