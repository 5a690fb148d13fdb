//! Atlas geometry: the tileset grid computed from pixel sizes.

use vstd::prelude::*;

use crate::error::TilemapError;

verus! {

/// A tileset atlas: one image subdivided into a uniform grid of
/// tile-sized cells.
#[derive(Clone, Debug)]
pub struct TileSetInfo {
    /// Width of the atlas image in pixels.
    pub atlas_width: u32,
    /// Height of the atlas image in pixels.
    pub atlas_height: u32,
    /// Width of one tile cell in pixels.
    pub tile_width: u32,
    /// Height of one tile cell in pixels.
    pub tile_height: u32,
    /// Path of the atlas image, kept so a material can be bound to it.
    pub source: String,
}

/// Size of the tileset atlas counted in tiles: `width` columns and
/// `height` rows.
#[derive(Clone, Copy, Debug, PartialEq, Eq, Structural)]
pub struct TilesheetDimensions {
    pub width: u32,
    pub height: u32,
}

/// The atlas is well formed: all four pixel sizes are positive and the
/// atlas size is an exact multiple of the tile size in both directions.
pub open spec fn atlas_valid(
    atlas_width: u32,
    atlas_height: u32,
    tile_width: u32,
    tile_height: u32,
) -> bool {
    &&& atlas_width > 0
    &&& atlas_height > 0
    &&& tile_width > 0
    &&& tile_height > 0
    &&& atlas_width as int % tile_width as int == 0
    &&& atlas_height as int % tile_height as int == 0
}

/// Computes the tileset grid from the atlas pixel size and the per-tile
/// pixel size: the atlas has `atlas_width / tile_width` columns and
/// `atlas_height / tile_height` rows of tiles. Inputs that are zero or
/// not exactly divisible are rejected as a malformed atlas.
pub fn atlas_grid(
    atlas_width: u32,
    atlas_height: u32,
    tile_width: u32,
    tile_height: u32,
) -> (r: Result<TilesheetDimensions, TilemapError>)
    ensures
        r is Ok <==> atlas_valid(atlas_width, atlas_height, tile_width, tile_height),
        r matches Ok(d) ==> {
            &&& d.width == atlas_width as int / tile_width as int
            &&& d.height == atlas_height as int / tile_height as int
            &&& d.width >= 1
            &&& d.height >= 1
        },
        r is Err ==> r == Err::<TilesheetDimensions, TilemapError>(TilemapError::MalformedAtlas),
{
    if atlas_width == 0 || atlas_height == 0 || tile_width == 0 || tile_height == 0 {
        return Err(TilemapError::MalformedAtlas);
    }
    if atlas_width % tile_width != 0 || atlas_height % tile_height != 0 {
        return Err(TilemapError::MalformedAtlas);
    }
    proof {
        lemma_exact_multiple_quotient_positive(atlas_width as int, tile_width as int);
        lemma_exact_multiple_quotient_positive(atlas_height as int, tile_height as int);
    }
    Ok(TilesheetDimensions {
        width: atlas_width / tile_width,
        height: atlas_height / tile_height,
    })
}

/// A positive exact multiple of a positive divisor has a positive quotient.
proof fn lemma_exact_multiple_quotient_positive(x: int, d: int)
    requires
        x > 0,
        d > 0,
        x % d == 0,
    ensures
        x / d >= 1,
{
    if x < d {
        vstd::arithmetic::div_mod::lemma_small_mod(x as nat, d as nat);
        assert(x % d == x);
    }
    vstd::arithmetic::div_mod::lemma_div_non_zero(x, d);
}

} // verus!
