//! Reading the character's record.  A question changes nothing, and its answer
//! depends on the record and the question alone.

use vstd::prelude::*;
use crate::character::Character;
use crate::error::ContractError;
use crate::msg::{GetHealthResponse, GetPositionResponse};

verus! {

/// Where the character with the given id stands.  An instance has one
/// character: any other id finds nothing.
pub open spec fn position_of(character: Character, id: u32) -> Result<
    GetPositionResponse,
    ContractError,
> {
    if id == character.id {
        Ok(GetPositionResponse { x: character.position.x, y: character.position.y })
    } else {
        Err(ContractError::NotFound)
    }
}

/// The health of the character with the given id.  An instance has one
/// character: any other id finds nothing.
pub open spec fn health_of(character: Character, id: u32) -> Result<
    GetHealthResponse,
    ContractError,
> {
    if id == character.id {
        Ok(GetHealthResponse { health: character.health })
    } else {
        Err(ContractError::NotFound)
    }
}

/// Where the character with the given id stands.
pub fn get_position(character: &Character, id: u32) -> (r: Result<
    GetPositionResponse,
    ContractError,
>)
    ensures
        r == position_of(*character, id),
{
    if id == character.id {
        Ok(GetPositionResponse { x: character.position.x, y: character.position.y })
    } else {
        Err(ContractError::NotFound)
    }
}

/// The health of the character with the given id.
pub fn get_health(character: &Character, id: u32) -> (r: Result<GetHealthResponse, ContractError>)
    ensures
        r == health_of(*character, id),
{
    if id == character.id {
        Ok(GetHealthResponse { health: character.health })
    } else {
        Err(ContractError::NotFound)
    }
}

/// The position that a well-formed character reports is a square of the grid,
/// and the health that it reports is never negative.
pub proof fn answers_respect_the_record(character: Character, id: u32)
    requires
        character.wf(),
    ensures
        position_of(character, id) matches Ok(at) ==> 0 <= at.x <= 7 && 0 <= at.y <= 7,
        health_of(character, id) matches Ok(left) ==> left.health >= 0,
        position_of(character, id) is Ok <==> id == character.id,
        health_of(character, id) is Ok <==> id == character.id,
{
}

} // verus!
