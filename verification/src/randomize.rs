//! The randomization pass: every tile gets a rotation, and in palette mode a
//! colour, drawn from the stream that the seed starts.
//!
//! The draws are made in a fixed order. In palette mode the first draw picks
//! the palette of the pass. Then, tile by tile in sequence order, one draw
//! picks the rotation and, in palette mode, a second one picks the colour.

use vstd::prelude::*;
use nannou::rand::rngs::StdRng;
use crate::grid::{quarter_rotation, Rotation, Tile};
use crate::palette::{hex_color, in_palette, rgb_u32};
use crate::stream::{
    choice_draw, choose_item, draw_in_range, generator_state, range_draw, seeded_generator,
    seeded_state,
};

verus! {

/// The palette set as the contracts see it.
pub open spec fn table_view(palettes: Option<&Vec<[u32; 5]>>) -> Option<Seq<[u32; 5]>> {
    match palettes {
        Some(table) => Some(table@),
        None => None,
    }
}

/// The palette that the pass started by `seed` picks from `table`.
pub open spec fn picked_palette(seed: u64, table: Seq<[u32; 5]>) -> [u32; 5] {
    table[choice_draw(seeded_state(seed), table.len()).0]
}

/// The palette of the pass started by `seed`, if it has one.
pub open spec fn chosen_palette(seed: u64, palettes: Option<Seq<[u32; 5]>>) -> Option<[u32; 5]> {
    match palettes {
        Some(table) => Some(picked_palette(seed, table)),
        None => None,
    }
}

/// The state of the stream when the pass reaches the first tile.
pub open spec fn pass_start(seed: u64, palettes: Option<Seq<[u32; 5]>>) -> Seq<u32> {
    match palettes {
        Some(table) => choice_draw(seeded_state(seed), table.len()).1,
        None => seeded_state(seed),
    }
}

/// The state of the stream after the draws of one tile, made in state `state`.
pub open spec fn after_tile(state: Seq<u32>, colored: bool) -> Seq<u32> {
    let turned = range_draw(state, 0, 4).1;
    if colored {
        choice_draw(turned, 5).1
    } else {
        turned
    }
}

/// The state of the stream when a pass that began in state `start` reaches
/// the tile at index `index`.
pub open spec fn before_tile(start: Seq<u32>, colored: bool, index: nat) -> Seq<u32>
    decreases index,
{
    if index == 0 {
        start
    } else {
        after_tile(before_tile(start, colored, (index - 1) as nat), colored)
    }
}

/// The number of quarter turns drawn for a tile in state `state`.
pub open spec fn drawn_turns(state: Seq<u32>) -> int {
    range_draw(state, 0, 4).0
}

/// The palette entry drawn for a tile in state `state`, after its rotation.
pub open spec fn drawn_entry(state: Seq<u32>) -> int {
    choice_draw(range_draw(state, 0, 4).1, 5).0
}

/// `tile` with the rotation by `turns` quarter turns and, where `hex` is
/// given, the colour it stands for. Position and shape stay.
pub open spec fn restyled(tile: Tile, turns: int, hex: Option<u32>) -> Tile {
    Tile {
        rotation: quarter_rotation(turns),
        color: match hex {
            Some(number) => hex_color(number),
            None => tile.color,
        },
        ..tile
    }
}

/// `tile` after its draws, made in state `state`.
pub open spec fn styled(tile: Tile, state: Seq<u32>, palette: Option<[u32; 5]>) -> Tile {
    restyled(
        tile,
        drawn_turns(state),
        match palette {
            Some(entries) => Some(entries@[drawn_entry(state)]),
            None => None,
        },
    )
}

/// The tiles after the pass that `seed` starts.
pub open spec fn randomized(seed: u64, tiles: Seq<Tile>, palettes: Option<Seq<[u32; 5]>>) -> Seq<
    Tile,
> {
    Seq::new(
        tiles.len(),
        |i: int|
            styled(
                tiles[i],
                before_tile(pass_start(seed, palettes), palettes.is_some(), i as nat),
                chosen_palette(seed, palettes),
            ),
    )
}

/// Gives `tile` the rotation and colour that were drawn for it: `turns`
/// quarter turns and, in palette mode, the palette entry `hex`.
pub fn restyle(tile: Tile, turns: u32, hex: Option<u32>) -> (styled: Tile)
    ensures
        styled == restyled(tile, turns as int, hex),
{
    let color = match hex {
        Some(number) => rgb_u32(number),
        None => tile.color,
    };
    Tile {
        x: tile.x,
        y: tile.y,
        rotation: Rotation::from_quarter_turns(turns),
        points: tile.points,
        color,
    }
}

/// Picks the palette of a pass from a non-empty set with the next draw of the
/// stream.
fn get_random_palette(rng: &mut StdRng, table: &Vec<[u32; 5]>) -> (palette: [u32; 5])
    requires
        table@.len() > 0,
    ensures
        palette == table@[choice_draw(generator_state(*old(rng)), table@.len()).0],
        table@.contains(palette),
        generator_state(*final(rng)) == choice_draw(generator_state(*old(rng)), table@.len()).1,
{
    let picked = choose_item(table.as_slice(), rng);
    picked.unwrap()
}

/// Runs one pass over `tiles` from `seed`. With a palette set, one palette is
/// picked first and every tile gets one of its colours; without one the
/// colours stay as they are.
pub fn randomize(seed: u64, tiles: &mut Vec<Tile>, palettes: Option<&Vec<[u32; 5]>>)
    requires
        palettes matches Some(table) ==> table@.len() > 0,
    ensures
        final(tiles)@ == randomized(seed, old(tiles)@, table_view(palettes)),
        palettes matches Some(table) ==> table@.contains(picked_palette(seed, table@)),
        palettes matches Some(table) ==> forall|i: int|
            0 <= i < final(tiles)@.len() ==> in_palette(
                #[trigger] final(tiles)@[i].color,
                picked_palette(seed, table@),
            ),
{
    let mut rng = seeded_generator(seed);
    let palette: Option<[u32; 5]> = match palettes {
        Some(table) => Some(get_random_palette(&mut rng, table)),
        None => None,
    };
    let ghost start = generator_state(rng);
    let ghost colored = palettes.is_some();
    let count = tiles.len();
    let mut index: usize = 0;
    while index < count
        invariant
            index <= count,
            count == tiles@.len(),
            count == old(tiles)@.len(),
            colored == palette.is_some(),
            generator_state(rng) == before_tile(start, colored, index as nat),
            forall|i: int|
                0 <= i < index ==> #[trigger] tiles@[i] == styled(
                    old(tiles)@[i],
                    before_tile(start, colored, i as nat),
                    palette,
                ),
            forall|i: int| index <= i < count ==> #[trigger] tiles@[i] == old(tiles)@[i],
            palette matches Some(entries) ==> forall|i: int|
                0 <= i < index ==> in_palette(#[trigger] tiles@[i].color, entries),
        decreases count - index,
    {
        let turns = draw_in_range(&mut rng, 0, 4);
        let hex: Option<u32> = match &palette {
            Some(entries) => choose_item(entries.as_slice(), &mut rng),
            None => None,
        };
        let tile = restyle(tiles[index], turns as u32, hex);
        tiles.set(index, tile);
        index = index + 1;
    }
}

/// Position and shape of every tile survive a pass, and so does the number
/// of tiles.
pub proof fn lemma_pass_keeps_layout(seed: u64, tiles: Seq<Tile>, palettes: Option<Seq<[u32; 5]>>)
    ensures
        randomized(seed, tiles, palettes).len() == tiles.len(),
        forall|i: int|
            0 <= i < tiles.len() ==> {
                let after = #[trigger] randomized(seed, tiles, palettes)[i];
                after.x == tiles[i].x && after.y == tiles[i].y && after.points == tiles[i].points
            },
{
}

/// Every rotation that a pass assigns is 0, 90, 180 or 270 degrees.
pub proof fn lemma_pass_assigns_quarter_turns(
    seed: u64,
    tiles: Seq<Tile>,
    palettes: Option<Seq<[u32; 5]>>,
)
    ensures
        forall|i: int|
            0 <= i < tiles.len() ==> {
                let angle = (#[trigger] randomized(seed, tiles, palettes)[i]).rotation.angle_degrees();
                angle == 0 || angle == 90 || angle == 180 || angle == 270
            },
{
}

/// What a pass assigns depends on the seed and the palette set, not on what
/// the tiles looked like before: from one seed, two sequences of equally many
/// tiles get the same rotations and, in palette mode, the same colours.
pub proof fn lemma_same_seed_same_assignment(
    seed: u64,
    first: Seq<Tile>,
    second: Seq<Tile>,
    palettes: Option<Seq<[u32; 5]>>,
)
    requires
        first.len() == second.len(),
    ensures
        forall|i: int|
            0 <= i < first.len() ==> (#[trigger] randomized(seed, first, palettes)[i]).rotation
                == randomized(seed, second, palettes)[i].rotation,
        palettes.is_some() ==> forall|i: int|
            0 <= i < first.len() ==> (#[trigger] randomized(seed, first, palettes)[i]).color
                == randomized(seed, second, palettes)[i].color,
{
}

/// Running the pass again with the same seed changes nothing.
pub proof fn lemma_pass_repeats(seed: u64, tiles: Seq<Tile>, palettes: Option<Seq<[u32; 5]>>)
    ensures
        randomized(seed, randomized(seed, tiles, palettes), palettes) == randomized(
            seed,
            tiles,
            palettes,
        ),
{
    assert(randomized(seed, randomized(seed, tiles, palettes), palettes) =~= randomized(
        seed,
        tiles,
        palettes,
    ));
}

} // verus!
