//! The character: the single actor of an instance.

use vstd::prelude::*;
use crate::geometry::Position;

verus! {

/// The health that a character starts with.
pub const INITIAL_HEALTH: u32 = 100;

/// A way to do damage.  Each ability adds a fixed amount to an attack.
#[derive(Clone, Copy, Debug, PartialEq, Eq, Structural)]
pub enum Ability {
    Fire,
    Electric,
    Explosive,
    Blunt,
    Sharp,
}

/// Whether a character still takes commands.
#[derive(Clone, Copy, Debug, PartialEq, Eq, Structural)]
pub enum Status {
    /// The character has health left.
    Active,
    /// The character has no health left.  Nothing leads back from here.
    Defeated,
}

/// The two abilities of a character.
#[derive(Clone, Copy, Debug, PartialEq, Eq, Structural)]
pub struct Abilities {
    pub first: Ability,
    pub second: Ability,
}

/// The actor of an instance: who it is, how much health it has left, what it
/// can do and where it stands.
#[derive(Clone, Copy, Debug, PartialEq, Eq, Structural)]
pub struct Character {
    pub id: u32,
    pub health: u32,
    pub abilities: Abilities,
    pub position: Position,
}

impl Ability {
    /// The damage that the ability adds to an attack.
    pub open spec fn power(self) -> nat {
        match self {
            Ability::Fire => 20,
            Ability::Electric => 15,
            Ability::Explosive => 30,
            Ability::Blunt => 10,
            Ability::Sharp => 12,
        }
    }

    /// The damage that the ability adds to an attack.
    pub fn damage(self) -> (r: u32)
        ensures
            r == self.power(),
    {
        match self {
            Ability::Fire => 20,
            Ability::Electric => 15,
            Ability::Explosive => 30,
            Ability::Blunt => 10,
            Ability::Sharp => 12,
        }
    }
}

/// What is left of `health` after `damage`: the difference, and 0 where the
/// damage is at least the health.
pub open spec fn health_after(health: u32, damage: nat) -> u32 {
    if damage >= health {
        0
    } else {
        (health - damage) as u32
    }
}

impl Character {
    /// A character is well formed when it stands on the grid and its two
    /// abilities differ.
    pub open spec fn wf(self) -> bool {
        self.position.in_bounds() && self.abilities.first != self.abilities.second
    }

    /// The status that the health decides.
    pub open spec fn status(self) -> Status {
        if self.health == 0 {
            Status::Defeated
        } else {
            Status::Active
        }
    }

    /// The damage of an attack before the target's tile is counted: the sum
    /// over the two abilities.
    pub open spec fn power(self) -> nat {
        self.abilities.first.power() + self.abilities.second.power()
    }

    /// The same character elsewhere, after taking `damage`.
    pub open spec fn moved(self, position: Position, damage: nat) -> Character {
        Character { position, health: health_after(self.health, damage), ..self }
    }

    /// The same character after taking `damage`.
    pub open spec fn hurt(self, damage: nat) -> Character {
        Character { health: health_after(self.health, damage), ..self }
    }

    /// The character that every instance starts with: id 0, full health, fire
    /// and electricity, on square (0, 0).
    pub open spec fn initial() -> Character {
        Character {
            id: 0,
            health: INITIAL_HEALTH,
            abilities: Abilities { first: Ability::Fire, second: Ability::Electric },
            position: Position { x: 0, y: 0 },
        }
    }

    /// The character that every instance starts with.
    pub fn spawn() -> (r: Character)
        ensures
            r == Character::initial(),
            r.wf(),
    {
        Character {
            id: 0,
            health: INITIAL_HEALTH,
            abilities: Abilities { first: Ability::Fire, second: Ability::Electric },
            position: Position { x: 0, y: 0 },
        }
    }

    /// Whether the character is well formed.
    pub fn is_wf(&self) -> (r: bool)
        ensures
            r == self.wf(),
    {
        self.position.is_in_bounds() && self.abilities.first != self.abilities.second
    }

    /// The status that the health decides.
    pub fn current_status(&self) -> (r: Status)
        ensures
            r == self.status(),
    {
        if self.health == 0 {
            Status::Defeated
        } else {
            Status::Active
        }
    }

    /// Whether the character has no health left.
    pub fn is_defeated(&self) -> (r: bool)
        ensures
            r == (self.status() == Status::Defeated),
            r == (self.health == 0),
    {
        self.health == 0
    }

    /// The damage of an attack before the target's tile is counted.
    pub fn attack_power(&self) -> (r: u32)
        ensures
            r == self.power(),
            r <= 60,
    {
        self.abilities.first.damage() + self.abilities.second.damage()
    }

    /// The same character after taking `damage`: the health goes down by
    /// `damage` and stops at 0.
    pub fn take_damage(&self, damage: u32) -> (r: Character)
        ensures
            r == self.hurt(damage as nat),
    {
        Character {
            id: self.id,
            health: self.health.saturating_sub(damage),
            abilities: self.abilities,
            position: self.position,
        }
    }
}

/// Damage never raises health and never takes it below 0: the health after is
/// the health before less the damage, or 0 where that would be negative.
pub proof fn health_only_falls(health: u32, damage: nat)
    ensures
        0 <= health_after(health, damage) <= health,
        health_after(health, damage) == if health - damage < 0 {
            0
        } else {
            health - damage
        },
        health_after(health, 0) == health,
{
}

/// A defeated character stays defeated whatever damage follows.
pub proof fn defeat_is_final(character: Character, damage: nat)
    requires
        character.status() == Status::Defeated,
    ensures
        character.hurt(damage) == character,
        character.hurt(damage).status() == Status::Defeated,
{
}

} // verus!
