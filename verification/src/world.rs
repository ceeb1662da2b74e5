//! World generation: filling a tile grid from a noise field.
//!
//! The grid mirrors the tile map's storage: a `width * height` rectangle,
//! row by row, each cell empty until a tile is set into it. Generating a
//! world walks the noise field column by column and sets into every cell
//! the texture that the terrain classification picks for its sample.

use vstd::prelude::*;
use crate::grid::{cell_index, lemma_cell_index_bounds, lemma_cell_index_injective};
use crate::noise_field::NoiseField;
use crate::terrain::{TileTextureIndex, get_index, is_base_tile};

verus! {

/// The tiles of one generated world; a cell is `None` until its tile is set.
pub struct TileGrid {
    pub width: usize,
    pub height: usize,
    pub tiles: Vec<Option<TileTextureIndex>>,
}

impl TileGrid {
    /// The grid is well formed: one cell per position.
    pub open spec fn wf(&self) -> bool {
        self.tiles@.len() == self.width * self.height
    }

    /// The cell at `(x, y)`: the texture index of its tile, if one was set.
    pub open spec fn tile_at(&self, x: int, y: int) -> Option<TileTextureIndex> {
        self.tiles@[cell_index(self.width as int, x, y)]
    }

    /// A grid of the given size with no tile set yet.
    pub fn empty(width: usize, height: usize) -> (g: Self)
        requires
            width * height <= usize::MAX,
        ensures
            g.wf(),
            g.width == width,
            g.height == height,
            forall|x: int, y: int|
                0 <= x < width && 0 <= y < height ==> g.tile_at(x, y) is None,
    {
        let n = width * height;
        let mut tiles: Vec<Option<TileTextureIndex>> = Vec::new();
        let mut i: usize = 0;
        while i < n
            invariant
                i <= n,
                tiles@.len() == i,
                forall|j: int| 0 <= j < i ==> tiles@[j] is None,
            decreases n - i,
        {
            tiles.push(None);
            i = i + 1;
        }
        let g = TileGrid { width, height, tiles };
        proof {
            assert forall|x: int, y: int|
                0 <= x < width && 0 <= y < height implies g.tile_at(x, y) is None by {
                lemma_cell_index_bounds(width as int, height as int, x, y);
            }
        }
        g
    }

    /// The cell at `(x, y)`.
    pub fn get(&self, x: usize, y: usize) -> (t: Option<TileTextureIndex>)
        requires
            self.wf(),
            x < self.width,
            y < self.height,
        ensures
            t == self.tile_at(x as int, y as int),
    {
        let n = self.tiles.len();
        proof {
            lemma_cell_index_bounds(self.width as int, self.height as int, x as int, y as int);
            assert(y * self.width + x < n);
        }
        let i = y * self.width + x;
        self.tiles[i]
    }

    /// Sets the tile at `(x, y)`; every other cell keeps its state.
    pub fn set(&mut self, x: usize, y: usize, t: TileTextureIndex)
        requires
            old(self).wf(),
            x < old(self).width,
            y < old(self).height,
        ensures
            final(self).wf(),
            final(self).width == old(self).width,
            final(self).height == old(self).height,
            final(self).tile_at(x as int, y as int) == Some(t),
            forall|xx: int, yy: int|
                0 <= xx < old(self).width && 0 <= yy < old(self).height
                    && !(xx == x as int && yy == y as int)
                    ==> final(self).tile_at(xx, yy) == old(self).tile_at(xx, yy),
    {
        let n = self.tiles.len();
        proof {
            lemma_cell_index_bounds(self.width as int, self.height as int, x as int, y as int);
            assert(y * self.width + x < n);
        }
        let i = y * self.width + x;
        self.tiles.set(i, Some(t));
        proof {
            assert forall|xx: int, yy: int|
                0 <= xx < old(self).width && 0 <= yy < old(self).height
                    && !(xx == x as int && yy == y as int)
                    implies self.tile_at(xx, yy) == old(self).tile_at(xx, yy) by {
                lemma_cell_index_bounds(self.width as int, self.height as int, xx, yy);
                if cell_index(self.width as int, xx, yy)
                    == cell_index(self.width as int, x as int, y as int) {
                    lemma_cell_index_injective(self.width as int, xx, yy, x as int, y as int);
                }
            }
        }
    }
}

/// Generates the world's tiles from a noise field: every cell of the
/// returned grid holds a tile, its texture picked by the terrain
/// classification from the cell's noise sample.
pub fn generate_world(map: &NoiseField) -> (g: TileGrid)
    requires
        map.wf(),
    ensures
        g.wf(),
        g.width == map.width,
        g.height == map.height,
        forall|x: int, y: int|
            0 <= x < map.width && 0 <= y < map.height
                ==> (#[trigger] g.tile_at(x, y) matches Some(t) && is_base_tile(t)),
{
    let (grid_width, grid_height) = map.size();
    let mut grid = TileGrid::empty(grid_width, grid_height);
    let mut x: usize = 0;
    while x < grid_width
        invariant
            map.wf(),
            grid.wf(),
            grid.width == grid_width,
            grid.height == grid_height,
            grid_width == map.width,
            grid_height == map.height,
            x <= grid_width,
            forall|xx: int, yy: int|
                0 <= xx < x && 0 <= yy < grid_height
                    ==> (#[trigger] grid.tile_at(xx, yy) matches Some(t) && is_base_tile(t)),
        decreases grid_width - x,
    {
        let mut y: usize = 0;
        while y < grid_height
            invariant
                map.wf(),
                grid.wf(),
                grid.width == grid_width,
                grid.height == grid_height,
                grid_width == map.width,
                grid_height == map.height,
                x < grid_width,
                y <= grid_height,
                forall|xx: int, yy: int|
                    0 <= xx < x && 0 <= yy < grid_height
                        ==> (#[trigger] grid.tile_at(xx, yy) matches Some(t) && is_base_tile(t)),
                forall|yy: int|
                    0 <= yy < y
                        ==> (#[trigger] grid.tile_at(x as int, yy) matches Some(t) && is_base_tile(t)),
            decreases grid_height - y,
        {
            let texture_index = get_index(map.get_value(x, y));
            grid.set(x, y, texture_index);
            y = y + 1;
        }
        x = x + 1;
    }
    grid
}

} // verus!
