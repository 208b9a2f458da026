use tri_tiles::grid::{build_grid, Rotation};
use tri_tiles::model::{model, update, Model, Variant, FIRST_SEED_BOUND, NEXT_SEED_BOUND};
use paleta_rs::all_hex as palettes;
use tri_tiles::palette::Color;
use tri_tiles::grid::Tile;
use tri_tiles::randomize::{randomize, restyle};

#[test]
fn seed_bounds() {
    assert_eq!(FIRST_SEED_BOUND, 100_000);
    assert_eq!(NEXT_SEED_BOUND, 1_000_000);
}

#[test]
fn new_model_holds_the_standard_grid_whatever_the_seed() {
    for seed in [0u64, 42, u64::MAX] {
        let state = Model::new(Variant::Colored, seed);
        assert_eq!(state.random_seed, seed);
        assert_eq!(state.variant, Variant::Colored);
        assert_eq!(state.tiles.len(), 256);
        assert_eq!(state.tiles, build_grid(16, 16));
    }
}

#[test]
fn model_with_grid_of_24_by_24() {
    let state = Model::with_grid(Variant::Plain, 24, 24, 42);
    assert_eq!(state.tiles.len(), 576);
    assert_eq!(state.tiles, build_grid(24, 24));
    assert_eq!(state.random_seed, 42);
    assert_eq!(state.variant, Variant::Plain);
}

#[test]
fn started_model_has_a_small_seed_and_a_fresh_grid() {
    for _ in 0..200 {
        let state = model(Variant::Colored);
        assert!(state.random_seed < 100_000);
        assert_eq!(state.tiles, build_grid(16, 16));
    }
}

#[test]
fn started_models_differ_in_their_seeds() {
    let seeds: Vec<u64> = (0..50).map(|_| model(Variant::Plain).random_seed).collect();
    assert!(seeds.iter().any(|seed| *seed != seeds[0]));
}

#[test]
fn reseed_replaces_the_seed_only() {
    let mut state = Model::new(Variant::Colored, 1);
    let tiles = state.tiles.clone();
    state.reseed(77);
    assert_eq!(state.random_seed, 77);
    assert_eq!(state.tiles, tiles);
    assert_eq!(state.variant, Variant::Colored);
}

#[test]
fn update_of_the_coloured_sketch_runs_the_pass_with_the_palette_set() {
    let mut state = Model::new(Variant::Colored, 42);
    update(&mut state);
    let mut expected = build_grid(16, 16);
    randomize(42, &mut expected, Some(&palettes()));
    assert_eq!(state.tiles, expected);
    assert_eq!(state.random_seed, 42);
    assert!(state.tiles.iter().any(|tile| tile.color != Color::black()));
}

#[test]
fn update_of_the_plain_sketch_rotates_only() {
    let mut state = Model::with_grid(Variant::Plain, 24, 24, 42);
    update(&mut state);
    let mut expected = build_grid(24, 24);
    randomize(42, &mut expected, None);
    assert_eq!(state.tiles, expected);
    assert!(state.tiles.iter().all(|tile| tile.color == Color::black()));
    assert!(state.tiles.iter().any(|tile| tile.rotation != Rotation::Deg0));
}

#[test]
fn update_twice_gives_the_same_picture() {
    let mut state = Model::new(Variant::Colored, 42);
    update(&mut state);
    let first = state.clone();
    update(&mut state);
    assert_eq!(state, first);
}

#[test]
fn update_after_reseed_gives_another_picture() {
    let mut state = Model::new(Variant::Colored, 42);
    update(&mut state);
    let first = state.tiles.clone();
    state.reseed(43);
    update(&mut state);
    assert_ne!(state.tiles, first);
    assert_eq!(state.tiles.len(), first.len());
}

#[test]
fn update_with_a_set_of_one_palette() {
    let table = vec![[0x111111, 0x222222, 0x333333, 0x444444, 0x555555]];
    let mut state = Model::new(Variant::Colored, 5);
    state.update_with(Some(&table));
    let mut expected = build_grid(16, 16);
    randomize(5, &mut expected, Some(&table));
    assert_eq!(state.tiles, expected);
    let allowed: Vec<Color> =
        table[0].iter().map(|hex| restyle(Tile::new(0, 0), 0, Some(*hex)).color).collect();
    assert!(state.tiles.iter().all(|tile| allowed.contains(&tile.color)));
}
