//! Tiles: what one square of the board is, and what follows from it.

use vstd::prelude::*;

verus! {

/// What a square is made of.
#[derive(Clone, Copy, Debug, PartialEq, Eq, Structural)]
pub enum TileKind {
    /// Open ground.
    Normal,
    /// A square that nothing can enter.
    Blockade,
    /// Open ground that hurts whoever steps on it.
    DamageInducer { damage: u32 },
}

/// One square of the board: its kind, and the two properties that the kind
/// decides.
#[derive(Clone, Copy, Debug, PartialEq, Eq, Structural)]
pub struct Tile {
    pub kind: TileKind,
    /// Whether a character may enter the square.
    pub moveable: bool,
    /// The health that the square takes.
    pub damage: u32,
}

impl TileKind {
    /// A damage inducer must do some damage; the other kinds are always valid.
    pub open spec fn valid(self) -> bool {
        self matches TileKind::DamageInducer { damage } ==> damage > 0
    }

    /// The health that a square of this kind takes.
    pub open spec fn hazard(self) -> nat {
        match self {
            TileKind::DamageInducer { damage } => damage as nat,
            _ => 0,
        }
    }
}

impl Tile {
    /// The tile that a kind stands for.
    pub open spec fn of(kind: TileKind) -> Tile {
        Tile { kind, moveable: kind != TileKind::Blockade, damage: kind.hazard() as u32 }
    }

    /// A tile is well formed when its kind is valid and its properties are
    /// those that the kind decides.
    pub open spec fn wf(self) -> bool {
        self.kind.valid() && self == Tile::of(self.kind)
    }

    /// The tile of the given kind, unless the kind is invalid.
    pub fn new(kind: TileKind) -> (r: Option<Tile>)
        ensures
            r == if kind.valid() { Some(Tile::of(kind)) } else { None },
    {
        match kind {
            TileKind::Normal => Some(Tile { kind, moveable: true, damage: 0 }),
            TileKind::Blockade => Some(Tile { kind, moveable: false, damage: 0 }),
            TileKind::DamageInducer { damage } => {
                if damage == 0 {
                    None
                } else {
                    Some(Tile { kind, moveable: true, damage })
                }
            },
        }
    }

    /// Open ground.
    pub fn normal() -> (r: Tile)
        ensures
            r == Tile::of(TileKind::Normal),
            r.wf(),
    {
        Tile { kind: TileKind::Normal, moveable: true, damage: 0 }
    }

    /// A square that nothing can enter.
    pub fn blockade() -> (r: Tile)
        ensures
            r == Tile::of(TileKind::Blockade),
            r.wf(),
    {
        Tile { kind: TileKind::Blockade, moveable: false, damage: 0 }
    }

    /// Open ground that takes `damage` health, unless `damage` is zero.
    pub fn damage_inducer(damage: u32) -> (r: Option<Tile>)
        ensures
            r == if damage > 0 {
                Some(Tile::of(TileKind::DamageInducer { damage }))
            } else {
                None
            },
    {
        Tile::new(TileKind::DamageInducer { damage })
    }

    /// What the tile adds to an attack on its square: its damage where it is a
    /// damage inducer, and nothing otherwise.
    pub open spec fn bonus(self) -> nat {
        if self.kind is DamageInducer {
            self.damage as nat
        } else {
            0
        }
    }

    /// What the tile adds to an attack on its square.
    pub fn attack_bonus(&self) -> (r: u32)
        ensures
            r == self.bonus(),
    {
        match self.kind {
            TileKind::DamageInducer { .. } => self.damage,
            _ => 0,
        }
    }

    /// Whether the tile is well formed.
    pub fn is_wf(&self) -> (r: bool)
        ensures
            r == self.wf(),
    {
        match self.kind {
            TileKind::Normal => self.moveable && self.damage == 0,
            TileKind::Blockade => !self.moveable && self.damage == 0,
            TileKind::DamageInducer { damage } => {
                damage > 0 && self.moveable && self.damage == damage
            },
        }
    }
}

/// A well-formed tile is closed to movement exactly when it is a blockade, and
/// does damage exactly when it is a damage inducer.
pub proof fn tile_properties_follow_kind(tile: Tile)
    requires
        tile.wf(),
    ensures
        !tile.moveable <==> tile.kind == TileKind::Blockade,
        tile.damage != 0 <==> tile.kind is DamageInducer,
        tile.damage == tile.kind.hazard(),
        tile.bonus() == tile.kind.hazard(),
{
}

} // verus!
