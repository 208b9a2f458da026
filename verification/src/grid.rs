//! Tiles and the grid they are laid out on.
//!
//! Lengths inside a cell are counted in half cells, so that the corners of a
//! cell centred on the origin have whole coordinates.

use vstd::prelude::*;
use vstd::arithmetic::div_mod::lemma_fundamental_div_mod_converse;
use crate::palette::Color;

verus! {

/// Rows of the grid.
pub const ROWS: u32 = 16;

/// Columns of the grid.
pub const COLS: u32 = 16;

/// Side of one cell, in pixels.
pub const SIZE: u32 = 48;

/// Width of the grid, in pixels.
pub const WIDTH: u32 = COLS * SIZE;

/// Height of the grid, in pixels.
pub const HEIGHT: u32 = ROWS * SIZE;

/// A point in half cells.
#[derive(Clone, Copy, Debug, PartialEq, Eq)]
pub struct Point {
    pub x: i64,
    pub y: i64,
}

/// The three corners of a tile's triangle, measured from the cell's centre.
#[derive(Clone, Copy, Debug, PartialEq, Eq)]
pub struct Triangle(pub Point, pub Point, pub Point);

/// A rotation by a whole number of quarter turns.
#[derive(Clone, Copy, Debug, PartialEq, Eq)]
pub enum Rotation {
    Deg0,
    Deg90,
    Deg180,
    Deg270,
}

/// One cell of the grid, drawn as a rotated right triangle.
#[derive(Clone, Copy, Debug, PartialEq, Eq)]
pub struct Tile {
    /// Column of the cell.
    pub x: u32,
    /// Row of the cell.
    pub y: u32,
    pub rotation: Rotation,
    pub points: Triangle,
    pub color: Color,
}

/// The right triangle with its right angle in the corner `(1, 1)` of the cell
/// and its other corners in `(-1, 1)` and `(1, -1)`.
pub open spec fn canonical_triangle() -> Triangle {
    Triangle(Point { x: 1, y: 1 }, Point { x: -1i64, y: 1 }, Point { x: 1, y: -1i64 })
}

/// The tile as the grid builder leaves it: not rotated, black, with the
/// canonical triangle.
pub open spec fn fresh_tile(x: u32, y: u32) -> Tile {
    Tile {
        x,
        y,
        rotation: Rotation::Deg0,
        points: canonical_triangle(),
        color: Color { red: 0, green: 0, blue: 0 },
    }
}

/// The tiles of a fresh grid in row-major order: the tile at index `i` sits in
/// column `i % cols` of row `i / cols`.
pub open spec fn fresh_grid(rows: nat, cols: nat) -> Seq<Tile> {
    Seq::new(rows * cols, |i: int| fresh_tile((i % cols as int) as u32, (i / cols as int) as u32))
}

/// The rotation by `turns` quarter turns. Four quarter turns are a full turn,
/// so only `turns % 4` matters.
pub open spec fn quarter_rotation(turns: int) -> Rotation {
    if turns % 4 == 0 {
        Rotation::Deg0
    } else if turns % 4 == 1 {
        Rotation::Deg90
    } else if turns % 4 == 2 {
        Rotation::Deg180
    } else {
        Rotation::Deg270
    }
}

impl Rotation {
    /// Number of quarter turns, from 0 to 3.
    pub open spec fn quarter_turns(self) -> int {
        match self {
            Rotation::Deg0 => 0,
            Rotation::Deg90 => 1,
            Rotation::Deg180 => 2,
            Rotation::Deg270 => 3,
        }
    }

    /// The angle in degrees.
    pub open spec fn angle_degrees(self) -> int {
        90 * self.quarter_turns()
    }

    /// The rotation by `turns` quarter turns.
    pub fn from_quarter_turns(turns: u32) -> (rotation: Rotation)
        ensures
            rotation == quarter_rotation(turns as int),
            rotation.quarter_turns() == turns % 4,
    {
        let rest: u32 = turns % 4;
        if rest == 0 {
            Rotation::Deg0
        } else if rest == 1 {
            Rotation::Deg90
        } else if rest == 2 {
            Rotation::Deg180
        } else {
            Rotation::Deg270
        }
    }

    /// The angle in degrees: 0, 90, 180 or 270.
    pub fn degrees(self) -> (angle: u32)
        ensures
            angle == self.angle_degrees(),
            angle == 0 || angle == 90 || angle == 180 || angle == 270,
    {
        match self {
            Rotation::Deg0 => 0,
            Rotation::Deg90 => 90,
            Rotation::Deg180 => 180,
            Rotation::Deg270 => 270,
        }
    }
}

impl Triangle {
    /// The triangle that every tile is built with.
    pub fn canonical() -> (points: Triangle)
        ensures
            points == canonical_triangle(),
    {
        Triangle(Point { x: 1, y: 1 }, Point { x: -1, y: 1 }, Point { x: 1, y: -1 })
    }
}

impl Tile {
    /// A fresh tile for column `x` of row `y`.
    pub fn new(x: u32, y: u32) -> (tile: Tile)
        ensures
            tile == fresh_tile(x, y),
    {
        Tile {
            x,
            y,
            rotation: Rotation::Deg0,
            points: Triangle::canonical(),
            color: Color::black(),
        }
    }
}

/// Builds the grid: `rows * cols` fresh tiles in row-major order.
pub fn build_grid(rows: u32, cols: u32) -> (tiles: Vec<Tile>)
    ensures
        tiles@ == fresh_grid(rows as nat, cols as nat),
        tiles@.len() == rows * cols,
{
    let mut tiles: Vec<Tile> = Vec::new();
    let mut y: u32 = 0;
    while y < rows
        invariant
            y <= rows,
            tiles@ == fresh_grid(y as nat, cols as nat),
        decreases rows - y,
    {
        let mut x: u32 = 0;
        while x < cols
            invariant
                y < rows,
                x <= cols,
                tiles@.len() == y * cols + x,
                forall|i: int|
                    0 <= i < tiles@.len() ==> #[trigger] tiles@[i] == fresh_tile(
                        (i % cols as int) as u32,
                        (i / cols as int) as u32,
                    ),
            decreases cols - x,
        {
            proof {
                lemma_fundamental_div_mod_converse(y * cols + x, cols as int, y as int, x as int);
            }
            tiles.push(Tile::new(x, y));
            x = x + 1;
        }
        assert((y + 1) * cols == y * cols + cols) by (nonlinear_arith);
        y = y + 1;
    }
    tiles
}

/// In a fresh grid the tile of column `x` and row `y` stands at index
/// `y * cols + x`, and the grid holds `rows * cols` tiles.
pub proof fn lemma_grid_is_row_major(rows: u32, cols: u32, x: u32, y: u32)
    requires
        x < cols,
        y < rows,
    ensures
        fresh_grid(rows as nat, cols as nat).len() == rows * cols,
        0 <= y * cols + x < rows * cols,
        fresh_grid(rows as nat, cols as nat)[y * cols + x] == fresh_tile(x, y),
{
    lemma_fundamental_div_mod_converse(y * cols + x, cols as int, y as int, x as int);
    assert(y * cols + x < rows * cols) by (nonlinear_arith)
        requires
            x < cols,
            y < rows,
    ;
    assert(0 <= y * cols + x) by (nonlinear_arith)
        requires
            0 <= x,
            0 <= y,
            0 <= cols,
    ;
}

/// Pixels along one side of a grid of `cells` cells that are `size` pixels
/// wide each.
pub fn pixel_extent(cells: u32, size: u32) -> (extent: u64)
    ensures
        extent == cells * size,
{
    assert(cells * size <= 0xffff_ffff * 0xffff_ffff) by (nonlinear_arith)
        requires
            cells <= 0xffff_ffff,
            size <= 0xffff_ffff,
    ;
    (cells as u64) * (size as u64)
}

/// Where the centre of the first cell lies when a row of `cells` cells is
/// centred on the origin, in half cells.
pub fn centred_origin(cells: u32) -> (origin: i64)
    ensures
        origin == 1 - cells,
{
    1 - (cells as i64)
}

} // verus!
