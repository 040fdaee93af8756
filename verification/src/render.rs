//! What a particle looks like on a character grid.
//!
//! A particle is drawn as a block of three by three tiles around the grid
//! cell of its centre. The glyphs come from a font sheet with sixteen glyphs
//! to a row: the block on the grid repeats the block of the sheet that
//! surrounds the glyph of the particle's hand.

use vstd::prelude::*;
use crate::hand::Hand;
use crate::particle::Particle;
use crate::simulation::Simulation;

verus! {

/// One glyph at one cell of the grid.
#[derive(Copy, Clone, Debug, PartialEq, Eq, Structural)]
pub struct Tile {
    pub x: i32,
    pub y: i32,
    pub glyph: u16,
}

/// How many columns tile `k` of a sprite lies to the right of the centre.
pub open spec fn tile_dx(k: int) -> int {
    k / 3 - 1
}

/// How many rows tile `k` of a sprite lies above the centre.
pub open spec fn tile_dy(k: int) -> int {
    k % 3 - 1
}

/// The number of the glyph in tile `k` of the sprite of `hand`: one column
/// to the right is the next glyph of the sheet, one row up is the glyph one
/// sheet row earlier.
pub open spec fn tile_glyph(hand: Hand, k: int) -> int {
    hand.glyph_code() + tile_dx(k) - 16 * tile_dy(k)
}

/// `tile` is tile `k` of the sprite of `hand` with its centre in cell
/// `(x, y)`.
pub open spec fn is_sprite_tile(tile: Tile, x: int, y: int, hand: Hand, k: int) -> bool {
    &&& tile.x == x + tile_dx(k)
    &&& tile.y == y - tile_dy(k)
    &&& tile.glyph == tile_glyph(hand, k)
}

/// A cell whose neighbours all have coordinates that fit the grid's numbers.
pub open spec fn has_neighbours(cell: (i32, i32)) -> bool {
    &&& i32::MIN < cell.0 < i32::MAX
    &&& i32::MIN < cell.1 < i32::MAX
}

impl Hand {
    /// The number of the glyph at the centre of the sprite of this hand.
    pub open spec fn glyph_code(self) -> int {
        match self {
            Hand::Rock => 199,
            Hand::Paper => 193,
            Hand::Scissors => 196,
        }
    }

    /// The glyph at the centre of the sprite of this hand.
    pub fn glyph(self) -> (code: u16)
        ensures
            code == self.glyph_code(),
    {
        match self {
            Hand::Rock => 199,
            Hand::Paper => 193,
            Hand::Scissors => 196,
        }
    }
}

impl<B> Particle<B> {
    /// The nine tiles of this particle when its centre lies in cell
    /// `(x, y)`, column by column from the left and, within a column, from
    /// the bottom up.
    pub fn render(&self, x: i32, y: i32) -> (tiles: Vec<Tile>)
        requires
            has_neighbours((x, y)),
        ensures
            tiles@.len() == 9,
            forall|k: int| 0 <= k < 9 ==> is_sprite_tile(#[trigger] tiles@[k], x as int, y as int, self.hand, k),
    {
        let glyph: u16 = self.hand.glyph();
        let mut tiles: Vec<Tile> = Vec::new();
        let mut dx: i32 = -1;
        while dx < 2
            invariant
                -1 <= dx <= 2,
                has_neighbours((x, y)),
                glyph == self.hand.glyph_code(),
                tiles@.len() == 3 * (dx + 1),
                forall|k: int|
                    0 <= k < tiles@.len() ==> is_sprite_tile(
                        #[trigger] tiles@[k],
                        x as int,
                        y as int,
                        self.hand,
                        k,
                    ),
            decreases 2 - dx,
        {
            let mut dy: i32 = -1;
            while dy < 2
                invariant
                    -1 <= dx < 2,
                    -1 <= dy <= 2,
                    has_neighbours((x, y)),
                    glyph == self.hand.glyph_code(),
                    tiles@.len() == 3 * (dx + 1) + (dy + 1),
                    forall|k: int|
                        0 <= k < tiles@.len() ==> is_sprite_tile(
                            #[trigger] tiles@[k],
                            x as int,
                            y as int,
                            self.hand,
                            k,
                        ),
                decreases 2 - dy,
            {
                let code: i32 = glyph as i32 + dx - 16 * dy;
                tiles.push(Tile { x: x + dx, y: y - dy, glyph: code as u16 });
                dy += 1;
            }
            dx += 1;
        }
        tiles
    }
}

impl<B> Simulation<B> {
    /// The tiles of the whole population when particle `i` has its centre in
    /// cell `cells[i]`: the sprites of the particles one after the other, in
    /// the order of the population, so that tile `m` is tile `m % 9` of
    /// particle `m / 9`.
    pub fn render(&self, cells: &Vec<(i32, i32)>) -> (tiles: Vec<Tile>)
        requires
            cells@.len() == self@.len(),
            forall|i: int| 0 <= i < cells@.len() ==> has_neighbours(#[trigger] cells@[i]),
        ensures
            tiles@.len() == 9 * self@.len(),
            forall|m: int|
                0 <= m < tiles@.len() ==> is_sprite_tile(
                    #[trigger] tiles@[m],
                    cells@[m / 9].0 as int,
                    cells@[m / 9].1 as int,
                    self@[m / 9].hand,
                    m % 9,
                ),
    {
        let mut tiles: Vec<Tile> = Vec::new();
        let mut i: usize = 0;
        while i < self.len()
            invariant
                i <= self@.len(),
                cells@.len() == self@.len(),
                forall|i: int| 0 <= i < cells@.len() ==> has_neighbours(#[trigger] cells@[i]),
                tiles@.len() == 9 * i,
                forall|m: int|
                    0 <= m < tiles@.len() ==> is_sprite_tile(
                        #[trigger] tiles@[m],
                        cells@[m / 9].0 as int,
                        cells@[m / 9].1 as int,
                        self@[m / 9].hand,
                        m % 9,
                    ),
            decreases self@.len() - i,
        {
            let (x, y) = cells[i];
            let mut sprite = self.particle(i).render(x, y);
            tiles.append(&mut sprite);
            i += 1;
        }
        tiles
    }
}

/// Sprites of different hands have no glyph in common, so any one tile of a
/// particle tells its hand.
pub proof fn lemma_sprites_share_no_glyph(a: Hand, b: Hand, j: int, k: int)
    requires
        0 <= j < 9,
        0 <= k < 9,
        tile_glyph(a, j) == tile_glyph(b, k),
    ensures
        a == b,
{
}

} // verus!
