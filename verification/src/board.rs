//! The board: 64 tiles in row-major order, and the host that may attack on it.

use vstd::prelude::*;
use crate::geometry::{Position, GRID_CELLS};
use crate::tile::{Tile, TileKind};

verus! {

/// A sequence of tiles is a grid when it has one well-formed tile for each
/// square.
pub open spec fn grid_wf(tiles: Seq<Tile>) -> bool {
    &&& tiles.len() == GRID_CELLS
    &&& forall|i: int| 0 <= i < tiles.len() ==> (#[trigger] tiles[i]).wf()
}

/// The tile on a square, and `None` for a pair out of bounds.
pub open spec fn tile_on(tiles: Seq<Tile>, position: Position) -> Option<Tile> {
    if position.in_bounds() {
        Some(tiles[position.index()])
    } else {
        None
    }
}

/// The grid whose every square is open ground.
pub open spec fn open_ground() -> Seq<Tile> {
    Seq::new(GRID_CELLS as nat, |i: int| Tile::of(TileKind::Normal))
}

/// The tiles of a board.  A layout always is a grid: it cannot be built from
/// anything else, and no operation changes it.
#[derive(Debug, PartialEq)]
pub struct Layout {
    tiles: Vec<Tile>,
}

impl View for Layout {
    type V = Seq<Tile>;

    /// The tiles in row-major order: the tile of square `(x, y)` is at `8 * y + x`.
    closed spec fn view(&self) -> Seq<Tile> {
        self.tiles@
    }
}

impl Layout {
    #[verifier::type_invariant]
    spec fn is_grid(self) -> bool {
        grid_wf(self.tiles@)
    }

    /// Makes a layout of 64 well-formed tiles in row-major order, and refuses
    /// anything else.
    pub fn new(tiles: Vec<Tile>) -> (r: Option<Layout>)
        ensures
            r is Some <==> grid_wf(tiles@),
            r matches Some(layout) ==> layout@ == tiles@,
    {
        if tiles.len() != GRID_CELLS {
            return None;
        }
        let mut i: usize = 0;
        while i < GRID_CELLS
            invariant
                i <= GRID_CELLS,
                tiles.len() == GRID_CELLS,
                forall|j: int| 0 <= j < i ==> (#[trigger] tiles@[j]).wf(),
            decreases GRID_CELLS - i,
        {
            if !tiles[i].is_wf() {
                return None;
            }
            i += 1;
        }
        Some(Layout { tiles })
    }

    /// The tile on a square, and `None` for a pair out of bounds.
    pub fn tile_at(&self, position: Position) -> (r: Option<Tile>)
        ensures
            grid_wf(self@),
            r == tile_on(self@, position),
    {
        proof {
            use_type_invariant(self);
        }
        match position.checked_index() {
            Some(i) => Some(self.tiles[i]),
            None => None,
        }
    }

    /// A copy of the tiles in row-major order.
    pub fn tiles(&self) -> (r: Vec<Tile>)
        ensures
            grid_wf(self@),
            r@ == self@,
    {
        proof {
            use_type_invariant(self);
        }
        let mut copy: Vec<Tile> = Vec::new();
        let mut i: usize = 0;
        while i < GRID_CELLS
            invariant
                i <= GRID_CELLS,
                self.tiles.len() == GRID_CELLS,
                copy@ == self.tiles@.subrange(0, i as int),
            decreases GRID_CELLS - i,
        {
            copy.push(self.tiles[i]);
            i += 1;
        }
        copy
    }
}

impl Default for Layout {
    /// The layout whose every square is open ground.
    fn default() -> (r: Layout)
        ensures
            r@ == open_ground(),
    {
        let mut tiles: Vec<Tile> = Vec::new();
        let mut i: usize = 0;
        while i < GRID_CELLS
            invariant
                i <= GRID_CELLS,
                tiles.len() == i,
                forall|j: int| 0 <= j < i ==> (#[trigger] tiles@[j]) == Tile::of(TileKind::Normal),
            decreases GRID_CELLS - i,
        {
            tiles.push(Tile::normal());
            i += 1;
        }
        Layout { tiles }
    }
}

impl Clone for Layout {
    fn clone(&self) -> (r: Layout)
        ensures
            r@ == self@,
    {
        proof {
            use_type_invariant(self);
        }
        Layout { tiles: self.tiles() }
    }
}

/// The board of an instance.  The host is the one identity that may attack.
#[derive(Clone, Debug, PartialEq)]
pub struct Board {
    pub host: String,
    pub layout: Layout,
}

/// What a board is: the text of its host and its tiles in row-major order.
pub struct BoardView {
    pub host: Seq<char>,
    pub tiles: Seq<Tile>,
}

impl View for Board {
    type V = BoardView;

    open spec fn view(&self) -> BoardView {
        BoardView { host: self.host@, tiles: self.layout@ }
    }
}

impl Board {
    /// A board with the given host and tiles.
    pub fn new(host: String, layout: Layout) -> (r: Board)
        ensures
            r@ == (BoardView { host: host@, tiles: layout@ }),
            grid_wf(r@.tiles),
    {
        proof {
            use_type_invariant(&layout);
        }
        Board { host, layout }
    }

    /// The tile on a square, and `None` for a pair out of bounds.
    pub fn tile_at(&self, position: Position) -> (r: Option<Tile>)
        ensures
            grid_wf(self@.tiles),
            r == tile_on(self@.tiles, position),
    {
        self.layout.tile_at(position)
    }
}

/// The grid of open ground is a grid, and none of its squares is closed or
/// does damage.
pub proof fn open_ground_is_a_grid()
    ensures
        grid_wf(open_ground()),
        forall|p: Position|
            p.in_bounds() ==> #[trigger] tile_on(open_ground(), p) == Some(
                Tile::of(TileKind::Normal),
            ),
{
}

/// On a grid every square has a well-formed tile, and no pair out of bounds has
/// any.
pub proof fn grid_has_a_tile_on_each_square(tiles: Seq<Tile>, position: Position)
    requires
        grid_wf(tiles),
    ensures
        tile_on(tiles, position) is Some <==> position.in_bounds(),
        tile_on(tiles, position) matches Some(tile) ==> tile.wf(),
{
}

} // verus!
