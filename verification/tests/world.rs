use tileworld::noise_field::{NoiseField, NoiseValue};
use tileworld::terrain::{TileTextureIndex, BASE_TILE_FIRST, BASE_TILE_LAST};
use tileworld::world::{generate_world, TileGrid};

#[test]
fn empty_grid_has_no_tiles() {
    let grid = TileGrid::empty(4, 3);
    for x in 0..4 {
        for y in 0..3 {
            assert_eq!(grid.get(x, y), None);
        }
    }
}

#[test]
fn set_fills_one_cell_only() {
    let mut grid = TileGrid::empty(3, 3);
    grid.set(1, 2, TileTextureIndex(2));
    for x in 0..3 {
        for y in 0..3 {
            if (x, y) == (1, 2) {
                assert_eq!(grid.get(x, y), Some(TileTextureIndex(2)));
            } else {
                assert_eq!(grid.get(x, y), None);
            }
        }
    }
}

#[test]
fn generate_world_fills_every_cell() {
    let mut field = NoiseField::new(10, 10);
    for x in 0..10 {
        for y in 0..10 {
            let millis = (x as i32 - 5) * 100 + (y as i32 - 5) * 70;
            field.set_value(x, y, NoiseValue::clamped(millis));
        }
    }
    let grid = generate_world(&field);
    assert_eq!(grid.width, 10);
    assert_eq!(grid.height, 10);
    for x in 0..10 {
        for y in 0..10 {
            let tile = grid.get(x, y).expect("every cell gets a tile");
            assert!(BASE_TILE_FIRST <= tile.0 && tile.0 <= BASE_TILE_LAST);
        }
    }
}

#[test]
fn generate_world_on_an_empty_field() {
    let field = NoiseField::new(0, 0);
    let grid = generate_world(&field);
    assert_eq!(grid.width, 0);
    assert_eq!(grid.height, 0);
}
