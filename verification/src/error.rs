use vstd::prelude::*;

verus! {

/// Errors raised while compiling a tile map. All of them are load-time
/// failures: they abort construction of the one map being compiled and
/// never crash the process.
#[derive(Clone, Copy, Debug, PartialEq, Eq, Structural)]
pub enum TilemapError {
    /// The atlas pixel size is zero or not an exact multiple of the tile size.
    MalformedAtlas,
    /// The map's width, height or tile size is zero.
    InvalidDimensions,
    /// A layer's grid is not exactly `height` rows of `width` cells.
    GridSizeMismatch,
    /// A tile identifier points outside the tileset atlas.
    TileIndexOutOfRange,
    /// The map holds more cells than the fixed-capacity tile buffer admits.
    CapacityExceeded,
}

} // verus!
