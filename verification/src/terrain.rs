//! Terrain classification: from a noise sample to a tile texture.
//!
//! Each cell of the noise field is classified by the magnitude of its
//! sample, and a random draw picks the variant among the textures of the
//! chosen terrain category. Every magnitude currently falls to the base
//! category of the texture sheet, so the classification keeps only the
//! draw; the magnitude stays the key on which further categories hang.

use vstd::prelude::*;
use crate::noise_field::NoiseValue;

verus! {

/// The first texture index of the base terrain tiles in the texture sheet.
pub const BASE_TILE_FIRST: u32 = 0;

/// The last texture index of the base terrain tiles in the texture sheet.
pub const BASE_TILE_LAST: u32 = 3;

/// The index of one tile texture within the map's texture sheet.
#[derive(Clone, Copy, PartialEq, Eq, Structural, Debug)]
pub struct TileTextureIndex(pub u32);

/// Whether a texture index names one of the base terrain tiles.
pub open spec fn is_base_tile(t: TileTextureIndex) -> bool {
    BASE_TILE_FIRST <= t.0 <= BASE_TILE_LAST
}

/// Relies on `rand::Rng::gen_range` on the generator `rand::thread_rng()`:
/// the draw lies within the given inclusive bounds, and the call panics
/// only on an empty range, which `lo <= hi` rules out.
#[verifier::external_body]
fn random_in_range(lo: u32, hi: u32) -> (r: u32)
    requires
        lo <= hi,
    ensures
        lo <= r <= hi,
{
    rand::Rng::gen_range(&mut rand::thread_rng(), lo..=hi)
}

/// The texture taken for a cell whose noise sample has the given magnitude,
/// once the random draw is fixed: every magnitude falls to the base terrain
/// category, whose variant is the draw itself.
pub fn index_for_draw(magnitude: i32, draw: u32) -> (t: TileTextureIndex)
    ensures
        t.0 == draw,
{
    match magnitude {
        _ => TileTextureIndex(draw),
    }
}

/// Picks the tile texture for one cell: the magnitude of the cell's noise
/// sample selects the terrain category, and a random draw picks the variant
/// among that category's textures, here one of the base tiles.
pub fn get_index(val: NoiseValue) -> (t: TileTextureIndex)
    requires
        val.wf(),
    ensures
        is_base_tile(t),
{
    let magnitude = val.abs();
    let draw = random_in_range(BASE_TILE_FIRST, BASE_TILE_LAST);
    index_for_draw(magnitude, draw)
}

} // verus!
