use tri_tiles::grid::{
    build_grid, centred_origin, pixel_extent, Point, Rotation, Tile, Triangle, COLS, HEIGHT, ROWS,
    SIZE, WIDTH,
};
use tri_tiles::palette::Color;

#[test]
fn grid_of_24_by_24_has_576_tiles() {
    let tiles: Vec<Tile> = build_grid(24, 24);
    assert_eq!(tiles.len(), 576);
}

#[test]
fn grid_of_24_cells_of_20_pixels_is_480_pixels_wide_and_high() {
    assert_eq!(pixel_extent(24, 20), 480);
    assert_eq!((pixel_extent(24, 20), pixel_extent(24, 20)), (480, 480));
}

#[test]
fn pixel_extent_does_not_wrap() {
    assert_eq!(pixel_extent(u32::MAX, u32::MAX), 18_446_744_065_119_617_025);
    assert_eq!(pixel_extent(0, 48), 0);
}

#[test]
fn standard_grid_measures() {
    assert_eq!((ROWS, COLS, SIZE), (16, 16, 48));
    assert_eq!(WIDTH, 768);
    assert_eq!(HEIGHT, 768);
    assert_eq!(pixel_extent(COLS, SIZE), u64::from(WIDTH));
    assert_eq!(pixel_extent(ROWS, SIZE), u64::from(HEIGHT));
}

#[test]
fn grid_is_row_major() {
    let tiles = build_grid(3, 5);
    assert_eq!(tiles.len(), 15);
    for (index, tile) in tiles.iter().enumerate() {
        assert_eq!(tile.x as usize, index % 5);
        assert_eq!(tile.y as usize, index / 5);
    }
    assert_eq!((tiles[0].x, tiles[0].y), (0, 0));
    assert_eq!((tiles[4].x, tiles[4].y), (4, 0));
    assert_eq!((tiles[5].x, tiles[5].y), (0, 1));
    assert_eq!((tiles[14].x, tiles[14].y), (4, 2));
}

#[test]
fn fresh_tiles_are_black_unrotated_canonical_triangles() {
    let expected = Triangle(Point { x: 1, y: 1 }, Point { x: -1, y: 1 }, Point { x: 1, y: -1 });
    assert_eq!(Triangle::canonical(), expected);
    for tile in build_grid(4, 4) {
        assert_eq!(tile.rotation, Rotation::Deg0);
        assert_eq!(tile.color, Color { red: 0, green: 0, blue: 0 });
        assert_eq!(tile.points, expected);
    }
    assert_eq!(
        Tile::new(7, 9),
        Tile {
            x: 7,
            y: 9,
            rotation: Rotation::Deg0,
            points: expected,
            color: Color::black(),
        }
    );
}

#[test]
fn empty_grids() {
    assert!(build_grid(0, 0).is_empty());
    assert!(build_grid(0, 9).is_empty());
    assert!(build_grid(9, 0).is_empty());
}

#[test]
fn single_row_and_single_column() {
    let row = build_grid(1, 4);
    assert_eq!(row.iter().map(|t| (t.x, t.y)).collect::<Vec<_>>(), vec![(0, 0), (1, 0), (2, 0), (3, 0)]);
    let column = build_grid(4, 1);
    assert_eq!(column.iter().map(|t| (t.x, t.y)).collect::<Vec<_>>(), vec![(0, 0), (0, 1), (0, 2), (0, 3)]);
}

#[test]
fn rotations_from_quarter_turns() {
    assert_eq!(Rotation::from_quarter_turns(0), Rotation::Deg0);
    assert_eq!(Rotation::from_quarter_turns(1), Rotation::Deg90);
    assert_eq!(Rotation::from_quarter_turns(2), Rotation::Deg180);
    assert_eq!(Rotation::from_quarter_turns(3), Rotation::Deg270);
    assert_eq!(Rotation::from_quarter_turns(4), Rotation::Deg0);
    assert_eq!(Rotation::from_quarter_turns(7), Rotation::Deg270);
    assert_eq!(Rotation::from_quarter_turns(u32::MAX), Rotation::Deg270);
}

#[test]
fn rotations_in_degrees() {
    assert_eq!(Rotation::Deg0.degrees(), 0);
    assert_eq!(Rotation::Deg90.degrees(), 90);
    assert_eq!(Rotation::Deg180.degrees(), 180);
    assert_eq!(Rotation::Deg270.degrees(), 270);
    for turns in 0..8u32 {
        assert_eq!(Rotation::from_quarter_turns(turns).degrees(), 90 * (turns % 4));
    }
}

#[test]
fn centred_origin_is_half_a_cell_inside_the_edge() {
    assert_eq!(centred_origin(16), -15);
    assert_eq!(centred_origin(24), -23);
    assert_eq!(centred_origin(1), 0);
    assert_eq!(centred_origin(0), 1);
    assert_eq!(centred_origin(u32::MAX), 1 - i64::from(u32::MAX));
    // In cells, as the drawing code needs it: COLS / -2 + 0.5.
    assert_eq!(centred_origin(16) as f32 / 2.0, 16.0 / -2.0 + 0.5);
}
