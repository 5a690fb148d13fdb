//! The layer compiler: orchestrates atlas geometry, tile encoding and
//! mesh generation into renderer-ready bundles, one per layer, sharing
//! one plane mesh and one tileset material per map.

use vstd::prelude::*;

use crate::atlas::atlas_grid;
use crate::atlas::atlas_valid;
use crate::atlas::TileSetInfo;
use crate::atlas::TilesheetDimensions;
use crate::encode::all_cells_in_range;
use crate::encode::encode_cells;
use crate::encode::generate_tile_data;
use crate::encode::layer_cells;
use crate::encode::lemma_grid_cells_len_uniform;
use crate::encode::EncodedCell;
use crate::encode::TileLayer;
use crate::encode::TILE_BUFFER_CAPACITY;
use crate::error::TilemapError;
use crate::mesh::generate_tilemap_plane;
use crate::mesh::plane_vertices;
use crate::mesh::PlaneVertex;

verus! {

/// Size of the map counted in tiles.
#[derive(Clone, Copy, Debug, PartialEq, Eq, Structural)]
pub struct TilemapDimensions {
    pub width: u32,
    pub height: u32,
}

/// A parsed tile-map description: map size in tiles, tile size in pixels,
/// and the ordered list of raw layers. Every layer's grid must hold
/// exactly `height` rows of exactly `width` cells.
#[derive(Clone, Debug)]
pub struct TileMapDescriptor {
    pub width: u32,
    pub height: u32,
    pub tile_width: u32,
    pub tile_height: u32,
    pub layers: Vec<TileLayer>,
}

/// One compiled layer's tile data: the layer's name and its encoded tile
/// buffer, one cell per map cell in row-major order.
#[derive(Clone, Debug)]
pub struct TilemapLayer {
    pub name: String,
    pub tiles: Vec<EncodedCell>,
}

/// The placement of a layer's quad: a translation by exactly half the
/// map's pixel extents, so the shared mesh, which is centered on the
/// origin, is drawn entirely in the positive quadrant. Like the mesh's
/// vertex positions, the translation is stored exactly in half-pixel
/// units: `translation_x2` half-pixels stand for `translation_x2 / 2`
/// pixels, so the value is the map's pixel extent itself and an odd
/// extent loses nothing to rounding.
#[derive(Clone, Copy, Debug, PartialEq, Eq, Structural)]
pub struct LayerPlacement {
    pub translation_x2: u32,
    pub translation_y2: u32,
}

/// One renderer-ready layer: encoded tile data plus placement. The mesh
/// and the material are shared per map and live on `CompiledTilemap`.
#[derive(Clone, Debug)]
pub struct CompiledLayer {
    pub layer: TilemapLayer,
    pub placement: LayerPlacement,
}

/// A whole compiled map: its dimensions, the tileset grid, the shared
/// plane mesh, the tileset image path the material binds to, and one
/// compiled layer per raw layer, in the raw order.
#[derive(Clone, Debug)]
pub struct CompiledTilemap {
    pub dimensions: TilemapDimensions,
    pub sheet: TilesheetDimensions,
    pub mesh: Vec<PlaneVertex>,
    pub texture_source: String,
    pub layers: Vec<CompiledLayer>,
}

/// The layer's grid is exactly `height` rows of exactly `width` cells.
pub open spec fn layer_shape_ok(layer: TileLayer, width: u32, height: u32) -> bool {
    &&& layer.tiles@.len() == height
    &&& forall|i: int| 0 <= i < layer.tiles@.len() ==> (#[trigger] layer.tiles@[i])@.len() == width
}

/// Every layer of the descriptor has the right grid shape.
pub open spec fn grids_ok(desc: TileMapDescriptor) -> bool {
    forall|k: int|
        0 <= k < desc.layers@.len() ==> layer_shape_ok(
            #[trigger] desc.layers@[k],
            desc.width,
            desc.height,
        )
}

/// The map's sizes are all positive.
pub open spec fn dimensions_positive(desc: TileMapDescriptor) -> bool {
    desc.width > 0 && desc.height > 0 && desc.tile_width > 0 && desc.tile_height > 0
}

/// The map's cell count fits the fixed-capacity tile buffer.
pub open spec fn capacity_ok(desc: TileMapDescriptor) -> bool {
    desc.width * desc.height <= TILE_BUFFER_CAPACITY
}

/// Every tile identifier of the layer fits the tileset grid.
pub open spec fn layer_ids_ok(layer: TileLayer, sheet: TilesheetDimensions) -> bool {
    all_cells_in_range(layer_cells(layer), sheet.width, sheet.height)
}

/// Every tile identifier of every layer fits the tileset grid.
pub open spec fn ids_ok(desc: TileMapDescriptor, sheet: TilesheetDimensions) -> bool {
    forall|k: int| 0 <= k < desc.layers@.len() ==> layer_ids_ok(#[trigger] desc.layers@[k], sheet)
}

/// The tileset grid a valid atlas yields: columns and rows of tiles.
pub open spec fn tileset_sheet(ts: TileSetInfo) -> TilesheetDimensions
    recommends
        atlas_valid(ts.atlas_width, ts.atlas_height, ts.tile_width, ts.tile_height),
{
    TilesheetDimensions {
        width: (ts.atlas_width as int / ts.tile_width as int) as u32,
        height: (ts.atlas_height as int / ts.tile_height as int) as u32,
    }
}

/// What it means for a compiled layer to be the faithful compilation of a
/// raw layer: same name, the grid encoded cell for cell, and a placement
/// at half the map's pixel extents.
pub open spec fn layer_compiled(
    c: CompiledLayer,
    raw: TileLayer,
    desc: TileMapDescriptor,
    sheet: TilesheetDimensions,
) -> bool {
    &&& c.layer.name@ == raw.name@
    &&& c.layer.tiles@ == encode_cells(layer_cells(raw), sheet.width, sheet.height)
    &&& c.placement.translation_x2 == desc.width * desc.tile_width
    &&& c.placement.translation_y2 == desc.height * desc.tile_height
}

/// Law: every layer the compiler accepts fits the shader-visible tile
/// buffer — its encoded buffer holds exactly one cell per map cell, and
/// the map's cell count is within the fixed capacity — so a scene built
/// from compiled layers always satisfies the draw pass's bound.
pub proof fn lemma_compiled_layer_fits_buffer(
    c: CompiledLayer,
    raw: TileLayer,
    desc: TileMapDescriptor,
    sheet: TilesheetDimensions,
)
    requires
        layer_compiled(c, raw, desc, sheet),
        layer_shape_ok(raw, desc.width, desc.height),
        capacity_ok(desc),
    ensures
        c.layer.tiles@.len() == desc.width * desc.height,
        c.layer.tiles@.len() <= TILE_BUFFER_CAPACITY,
{
    assert(forall|i: int|
        0 <= i < raw.tiles.deep_view().len() ==> (#[trigger] raw.tiles.deep_view()[i]).len()
            == desc.width as int);
    lemma_grid_cells_len_uniform(raw.tiles.deep_view(), desc.width as int);
    vstd::arithmetic::mul::lemma_mul_is_commutative(desc.width as int, desc.height as int);
}

/// Whether the layer's grid has exactly `height` rows of `width` cells.
fn check_layer_shape(layer: &TileLayer, width: u32, height: u32) -> (b: bool)
    ensures
        b == layer_shape_ok(*layer, width, height),
{
    if layer.tiles.len() != height as usize {
        return false;
    }
    let mut i: usize = 0;
    while i < layer.tiles.len()
        invariant
            0 <= i <= layer.tiles@.len(),
            forall|j: int| 0 <= j < i ==> (#[trigger] layer.tiles@[j])@.len() == width,
        decreases layer.tiles@.len() - i,
    {
        if layer.tiles[i].len() != width as usize {
            return false;
        }
        i = i + 1;
    }
    true
}

/// Compiles one raw layer against an already-computed tileset grid:
/// checks the grid shape, encodes the tiles and computes the placement.
/// Fails exactly when the shape, the capacity bound or a tile identifier
/// is wrong, in that order of precedence.
pub fn compile_layer(
    desc: &TileMapDescriptor,
    layer: &TileLayer,
    sheet: &TilesheetDimensions,
) -> (r: Result<CompiledLayer, TilemapError>)
    requires
        sheet.width >= 1,
        sheet.height >= 1,
        desc.width * desc.tile_width <= u32::MAX,
        desc.height * desc.tile_height <= u32::MAX,
    ensures
        r is Ok <==> {
            &&& layer_shape_ok(*layer, desc.width, desc.height)
            &&& capacity_ok(*desc)
            &&& layer_ids_ok(*layer, *sheet)
        },
        r matches Ok(c) ==> layer_compiled(c, *layer, *desc, *sheet),
        r == Err::<CompiledLayer, TilemapError>(TilemapError::GridSizeMismatch)
            <==> !layer_shape_ok(*layer, desc.width, desc.height),
        r == Err::<CompiledLayer, TilemapError>(TilemapError::CapacityExceeded) <==> {
            &&& layer_shape_ok(*layer, desc.width, desc.height)
            &&& !capacity_ok(*desc)
        },
        r == Err::<CompiledLayer, TilemapError>(TilemapError::TileIndexOutOfRange) <==> {
            &&& layer_shape_ok(*layer, desc.width, desc.height)
            &&& capacity_ok(*desc)
            &&& !layer_ids_ok(*layer, *sheet)
        },
{
    if !check_layer_shape(layer, desc.width, desc.height) {
        return Err(TilemapError::GridSizeMismatch);
    }
    proof {
        assert(forall|i: int|
            0 <= i < layer.tiles.deep_view().len() ==> (#[trigger] layer.tiles.deep_view()[i]).len()
                == desc.width as int);
        lemma_grid_cells_len_uniform(layer.tiles.deep_view(), desc.width as int);
        vstd::arithmetic::mul::lemma_mul_upper_bound(
            desc.width as int,
            u32::MAX as int,
            desc.height as int,
            u32::MAX as int,
        );
    }
    if (desc.width as u64) * (desc.height as u64) > TILE_BUFFER_CAPACITY as u64 {
        return Err(TilemapError::CapacityExceeded);
    }
    let tiles = match generate_tile_data(layer, sheet.width, sheet.height) {
        Ok(t) => t,
        Err(e) => {
            return Err(e);
        },
    };
    let extent_x: u32 = desc.width * desc.tile_width;
    let extent_y: u32 = desc.height * desc.tile_height;
    Ok(
        CompiledLayer {
            layer: TilemapLayer { name: layer.name.clone(), tiles },
            placement: LayerPlacement { translation_x2: extent_x, translation_y2: extent_y },
        },
    )
}

/// Compiles a whole parsed map against its tileset. Validation runs in
/// phases, each with its own error: the atlas must be well formed, the
/// map sizes positive, every layer's grid of the right shape, the cell
/// count within the tile-buffer capacity, and every tile identifier
/// within the atlas. A failure aborts the whole map — no partial layer
/// set is ever produced.
pub fn compile_tilemap(desc: &TileMapDescriptor, tileset: &TileSetInfo) -> (r: Result<
    CompiledTilemap,
    TilemapError,
>)
    requires
        desc.width * desc.tile_width <= u32::MAX,
        desc.height * desc.tile_height <= u32::MAX,
        desc.height * desc.tile_width <= u32::MAX,
    ensures
        r is Ok <==> {
            &&& atlas_valid(
                tileset.atlas_width,
                tileset.atlas_height,
                tileset.tile_width,
                tileset.tile_height,
            )
            &&& dimensions_positive(*desc)
            &&& grids_ok(*desc)
            &&& capacity_ok(*desc)
            &&& ids_ok(*desc, tileset_sheet(*tileset))
        },
        r matches Ok(c) ==> {
            &&& c.dimensions.width == desc.width
            &&& c.dimensions.height == desc.height
            &&& c.sheet == tileset_sheet(*tileset)
            &&& c.mesh@ == plane_vertices(desc.tile_width, desc.width, desc.height)
            &&& c.texture_source@ == tileset.source@
            &&& c.layers@.len() == desc.layers@.len()
            &&& forall|k: int|
                0 <= k < desc.layers@.len() ==> layer_compiled(
                    #[trigger] c.layers@[k],
                    desc.layers@[k],
                    *desc,
                    tileset_sheet(*tileset),
                )
        },
        r == Err::<CompiledTilemap, TilemapError>(TilemapError::MalformedAtlas) <==> !atlas_valid(
            tileset.atlas_width,
            tileset.atlas_height,
            tileset.tile_width,
            tileset.tile_height,
        ),
        r == Err::<CompiledTilemap, TilemapError>(TilemapError::InvalidDimensions) <==> {
            &&& atlas_valid(
                tileset.atlas_width,
                tileset.atlas_height,
                tileset.tile_width,
                tileset.tile_height,
            )
            &&& !dimensions_positive(*desc)
        },
        r == Err::<CompiledTilemap, TilemapError>(TilemapError::GridSizeMismatch) <==> {
            &&& atlas_valid(
                tileset.atlas_width,
                tileset.atlas_height,
                tileset.tile_width,
                tileset.tile_height,
            )
            &&& dimensions_positive(*desc)
            &&& !grids_ok(*desc)
        },
        r == Err::<CompiledTilemap, TilemapError>(TilemapError::CapacityExceeded) <==> {
            &&& atlas_valid(
                tileset.atlas_width,
                tileset.atlas_height,
                tileset.tile_width,
                tileset.tile_height,
            )
            &&& dimensions_positive(*desc)
            &&& grids_ok(*desc)
            &&& !capacity_ok(*desc)
        },
        r == Err::<CompiledTilemap, TilemapError>(TilemapError::TileIndexOutOfRange) <==> {
            &&& atlas_valid(
                tileset.atlas_width,
                tileset.atlas_height,
                tileset.tile_width,
                tileset.tile_height,
            )
            &&& dimensions_positive(*desc)
            &&& grids_ok(*desc)
            &&& capacity_ok(*desc)
            &&& !ids_ok(*desc, tileset_sheet(*tileset))
        },
{
    let sheet = match atlas_grid(
        tileset.atlas_width,
        tileset.atlas_height,
        tileset.tile_width,
        tileset.tile_height,
    ) {
        Ok(s) => s,
        Err(e) => {
            return Err(e);
        },
    };
    if desc.width == 0 || desc.height == 0 || desc.tile_width == 0 || desc.tile_height == 0 {
        return Err(TilemapError::InvalidDimensions);
    }
    let mut k: usize = 0;
    while k < desc.layers.len()
        invariant
            0 <= k <= desc.layers@.len(),
            atlas_valid(
                tileset.atlas_width,
                tileset.atlas_height,
                tileset.tile_width,
                tileset.tile_height,
            ),
            dimensions_positive(*desc),
            forall|j: int|
                0 <= j < k ==> layer_shape_ok(#[trigger] desc.layers@[j], desc.width, desc.height),
        decreases desc.layers@.len() - k,
    {
        if !check_layer_shape(&desc.layers[k], desc.width, desc.height) {
            proof {
                assert(!layer_shape_ok(desc.layers@[k as int], desc.width, desc.height));
                assert(!grids_ok(*desc));
            }
            return Err(TilemapError::GridSizeMismatch);
        }
        k = k + 1;
    }
    proof {
        assert(grids_ok(*desc));
        vstd::arithmetic::mul::lemma_mul_is_commutative(desc.width as int, desc.tile_width as int);
        vstd::arithmetic::mul::lemma_mul_is_commutative(desc.height as int, desc.tile_width as int);
        vstd::arithmetic::mul::lemma_mul_is_commutative(
            desc.height as int,
            desc.tile_height as int,
        );
        vstd::arithmetic::mul::lemma_mul_upper_bound(
            desc.width as int,
            u32::MAX as int,
            desc.height as int,
            u32::MAX as int,
        );
    }
    if (desc.width as u64) * (desc.height as u64) > TILE_BUFFER_CAPACITY as u64 {
        return Err(TilemapError::CapacityExceeded);
    }
    let mesh = match generate_tilemap_plane(desc.tile_width, desc.width, desc.height) {
        Ok(m) => m,
        Err(e) => {
            return Err(e);
        },
    };
    let mut compiled: Vec<CompiledLayer> = Vec::new();
    let mut k: usize = 0;
    while k < desc.layers.len()
        invariant
            0 <= k <= desc.layers@.len(),
            atlas_valid(
                tileset.atlas_width,
                tileset.atlas_height,
                tileset.tile_width,
                tileset.tile_height,
            ),
            dimensions_positive(*desc),
            sheet == tileset_sheet(*tileset),
            sheet.width >= 1,
            sheet.height >= 1,
            desc.width * desc.tile_width <= u32::MAX,
            desc.height * desc.tile_height <= u32::MAX,
            grids_ok(*desc),
            capacity_ok(*desc),
            compiled@.len() == k,
            forall|j: int|
                0 <= j < k ==> layer_compiled(
                    #[trigger] compiled@[j],
                    desc.layers@[j],
                    *desc,
                    tileset_sheet(*tileset),
                ),
            forall|j: int|
                0 <= j < k ==> layer_ids_ok(#[trigger] desc.layers@[j], tileset_sheet(*tileset)),
        decreases desc.layers@.len() - k,
    {
        match compile_layer(desc, &desc.layers[k], &sheet) {
            Ok(c) => {
                compiled.push(c);
            },
            Err(e) => {
                proof {
                    assert(layer_shape_ok(desc.layers@[k as int], desc.width, desc.height));
                    assert(e == TilemapError::TileIndexOutOfRange);
                    assert(!layer_ids_ok(desc.layers@[k as int], tileset_sheet(*tileset)));
                    assert(!ids_ok(*desc, tileset_sheet(*tileset)));
                }
                return Err(e);
            },
        }
        k = k + 1;
    }
    proof {
        assert(ids_ok(*desc, tileset_sheet(*tileset)));
    }
    Ok(
        CompiledTilemap {
            dimensions: TilemapDimensions { width: desc.width, height: desc.height },
            sheet,
            mesh,
            texture_source: tileset.source.clone(),
            layers: compiled,
        },
    )
}

} // verus!
