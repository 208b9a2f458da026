//! The state of a sketch: its tiles and the seed of the current picture.

use vstd::prelude::*;
use crate::grid::{build_grid, fresh_grid, Tile, COLS, ROWS};
use crate::palette::{all_hex, in_palette};
use crate::randomize::{picked_palette, randomize, randomized, table_view};
use crate::stream::ambient_draw;

verus! {

/// Seeds that a new sketch starts with lie below this bound.
pub const FIRST_SEED_BOUND: u64 = 100_000;

/// Seeds drawn on a key press lie below this bound.
pub const NEXT_SEED_BOUND: u64 = 1_000_000;

/// Which of the two sketches runs.
#[derive(Clone, Copy, Debug, PartialEq, Eq)]
pub enum Variant {
    /// Tiles are rotated and keep their colour.
    Plain,
    /// Tiles are rotated and coloured from a palette.
    Colored,
}

/// Tiles and seed of a sketch.
#[derive(Clone, Debug, PartialEq, Eq)]
pub struct Model {
    pub variant: Variant,
    pub tiles: Vec<Tile>,
    pub random_seed: u64,
}

impl Model {
    /// A sketch on a fresh grid of `rows` by `cols` tiles.
    pub fn with_grid(variant: Variant, rows: u32, cols: u32, random_seed: u64) -> (model: Model)
        ensures
            model.variant == variant,
            model.random_seed == random_seed,
            model.tiles@ == fresh_grid(rows as nat, cols as nat),
            model.tiles@.len() == rows * cols,
    {
        Model { variant, tiles: build_grid(rows, cols), random_seed }
    }

    /// A sketch on a fresh grid of the standard size.
    pub fn new(variant: Variant, random_seed: u64) -> (model: Model)
        ensures
            model.variant == variant,
            model.random_seed == random_seed,
            model.tiles@ == fresh_grid(ROWS as nat, COLS as nat),
            model.tiles@.len() == ROWS * COLS,
    {
        Model::with_grid(variant, ROWS, COLS, random_seed)
    }

    /// Replaces the seed; the next pass draws a new picture from it.
    pub fn reseed(&mut self, random_seed: u64)
        ensures
            final(self).random_seed == random_seed,
            final(self).variant == old(self).variant,
            final(self).tiles == old(self).tiles,
    {
        self.random_seed = random_seed;
    }

    /// Runs one pass from the current seed, with `table` as the palette set
    /// if there is one.
    pub fn update_with(&mut self, table: Option<&Vec<[u32; 5]>>)
        requires
            table matches Some(entries) ==> entries@.len() > 0,
        ensures
            final(self).variant == old(self).variant,
            final(self).random_seed == old(self).random_seed,
            final(self).tiles@ == randomized(
                old(self).random_seed,
                old(self).tiles@,
                table_view(table),
            ),
            table matches Some(entries) ==> entries@.contains(
                picked_palette(old(self).random_seed, entries@),
            ),
            table matches Some(entries) ==> forall|i: int|
                0 <= i < final(self).tiles@.len() ==> in_palette(
                    #[trigger] final(self).tiles@[i].color,
                    picked_palette(old(self).random_seed, entries@),
                ),
    {
        randomize(self.random_seed, &mut self.tiles, table);
    }
}

/// Starts a sketch: a fresh grid of the standard size and a seed drawn from the
/// thread's own generator.
pub fn model(variant: Variant) -> (model: Model)
    ensures
        model.variant == variant,
        model.random_seed < FIRST_SEED_BOUND,
        model.tiles@ == fresh_grid(ROWS as nat, COLS as nat),
{
    Model::new(variant, ambient_draw(FIRST_SEED_BOUND))
}

/// Redraws the picture of the current seed: one pass over the tiles, which in
/// the coloured sketch picks from the built-in palette set.
pub fn update(model: &mut Model)
    ensures
        final(model).variant == old(model).variant,
        final(model).random_seed == old(model).random_seed,
        old(model).variant == Variant::Plain ==> final(model).tiles@ == randomized(
            old(model).random_seed,
            old(model).tiles@,
            None,
        ),
        old(model).variant == Variant::Colored ==> exists|table: Seq<[u32; 5]>|
            {
                &&& table.len() == 100
                &&& table.contains(picked_palette(old(model).random_seed, table))
                &&& #[trigger] randomized(old(model).random_seed, old(model).tiles@, Some(table))
                    == final(model).tiles@
                &&& forall|i: int|
                    0 <= i < final(model).tiles@.len() ==> in_palette(
                        #[trigger] final(model).tiles@[i].color,
                        picked_palette(old(model).random_seed, table),
                    )
            },
{
    match model.variant {
        Variant::Plain => {
            model.update_with(None);
        },
        Variant::Colored => {
            let table = all_hex();
            model.update_with(Some(&table));
        },
    }
}

} // verus!
