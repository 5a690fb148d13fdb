//! Tests of the load-time pipeline: atlas geometry, tile encoding, plane
//! generation and whole-map compilation.

use tilemap::atlas::atlas_grid;
use tilemap::atlas::TileSetInfo;
use tilemap::atlas::TilesheetDimensions;
use tilemap::compile::compile_layer;
use tilemap::compile::compile_tilemap;
use tilemap::compile::TileMapDescriptor;
use tilemap::encode::generate_tile_data;
use tilemap::encode::EncodedCell;
use tilemap::encode::TileLayer;
use tilemap::encode::TILE_BUFFER_CAPACITY;
use tilemap::error::TilemapError;
use tilemap::mesh::generate_tilemap_plane;

fn tileset_64x64_of_32px() -> TileSetInfo {
    TileSetInfo {
        atlas_width: 64,
        atlas_height: 64,
        tile_width: 32,
        tile_height: 32,
        source: String::from("tiles.png"),
    }
}

fn layer(name: &str, rows: Vec<Vec<u32>>) -> TileLayer {
    TileLayer { name: String::from(name), tiles: rows }
}

#[test]
fn atlas_grid_divides_exactly() {
    assert_eq!(
        atlas_grid(64, 64, 32, 32),
        Ok(TilesheetDimensions { width: 2, height: 2 })
    );
    assert_eq!(
        atlas_grid(256, 96, 32, 32),
        Ok(TilesheetDimensions { width: 8, height: 3 })
    );
    assert_eq!(
        atlas_grid(16, 16, 16, 16),
        Ok(TilesheetDimensions { width: 1, height: 1 })
    );
}

#[test]
fn atlas_grid_rejects_non_divisible() {
    assert_eq!(atlas_grid(65, 64, 32, 32), Err(TilemapError::MalformedAtlas));
    assert_eq!(atlas_grid(64, 60, 32, 32), Err(TilemapError::MalformedAtlas));
}

#[test]
fn atlas_grid_rejects_zero_sizes() {
    assert_eq!(atlas_grid(0, 64, 32, 32), Err(TilemapError::MalformedAtlas));
    assert_eq!(atlas_grid(64, 64, 0, 32), Err(TilemapError::MalformedAtlas));
    assert_eq!(atlas_grid(64, 64, 32, 0), Err(TilemapError::MalformedAtlas));
}

#[test]
fn zero_id_encodes_to_sentinel_only() {
    let l = layer("ground", vec![vec![0, 5], vec![0, 0]]);
    let out = generate_tile_data(&l, 3, 2).unwrap();
    assert_eq!(out[0], EncodedCell::Empty);
    assert_eq!(out[2], EncodedCell::Empty);
    assert_eq!(out[3], EncodedCell::Empty);
    // A nonzero identifier never yields the sentinel.
    assert!(!matches!(out[1], EncodedCell::Empty));
}

#[test]
fn two_column_atlas_zero_based_row_flip() {
    // A 2-column, 1-row atlas: id 1 -> column 0, id 2 -> column 1, both on
    // the single row, which is bottom-origin row 0 == rows - 1.
    let l = layer("ground", vec![vec![1, 2]]);
    let out = generate_tile_data(&l, 2, 1).unwrap();
    assert_eq!(out[0], EncodedCell::Atlas { column: 0, row: 0 });
    assert_eq!(out[1], EncodedCell::Atlas { column: 1, row: 0 });
    // With three rows, ids 1 and 2 land on the visually top row, which the
    // flip turns into bottom-origin row 2 == rows - 1.
    let out3 = generate_tile_data(&l, 2, 3).unwrap();
    assert_eq!(out3[0], EncodedCell::Atlas { column: 0, row: 2 });
    assert_eq!(out3[1], EncodedCell::Atlas { column: 1, row: 2 });
}

#[test]
fn last_valid_id_encodes_and_next_fails() {
    // 2x2 atlas: the greatest valid id is 4.
    let ok = generate_tile_data(&layer("g", vec![vec![4]]), 2, 2).unwrap();
    assert_eq!(ok[0], EncodedCell::Atlas { column: 1, row: 0 });
    let bad = generate_tile_data(&layer("g", vec![vec![5]]), 2, 2);
    assert_eq!(bad, Err(TilemapError::TileIndexOutOfRange));
}

#[test]
fn oversized_grid_fails_capacity_never_truncates() {
    // 65 * 64 = 4160 cells: one more row than the buffer admits.
    let rows: Vec<Vec<u32>> = (0..65).map(|_| vec![0u32; 64]).collect();
    let r = generate_tile_data(&layer("g", rows), 2, 2);
    assert_eq!(r, Err(TilemapError::CapacityExceeded));
}

#[test]
fn full_capacity_grid_encodes_whole() {
    let rows: Vec<Vec<u32>> = (0..64).map(|_| vec![1u32; 64]).collect();
    let out = generate_tile_data(&layer("g", rows), 2, 2).unwrap();
    assert_eq!(out.len(), TILE_BUFFER_CAPACITY);
    assert!(out.iter().all(|c| *c == EncodedCell::Atlas { column: 0, row: 1 }));
}

#[test]
fn empty_grid_encodes_empty() {
    let out = generate_tile_data(&layer("g", vec![]), 2, 2).unwrap();
    assert_eq!(out.len(), 0);
}

#[test]
fn plane_is_two_triangles_with_unit_uv_corners() {
    let vs = generate_tilemap_plane(32, 2, 2).unwrap();
    assert_eq!(vs.len(), 6);
    // Two triangles over one quad: the fourth reference reuses the third
    // corner and the sixth closes on the first.
    assert_eq!(vs[3], vs[2]);
    assert_eq!(vs[5], vs[0]);
    // The four distinct corners carry exactly the unit square's UVs.
    let mut uvs: Vec<(u32, u32)> = vec![
        (vs[0].u, vs[0].v),
        (vs[1].u, vs[1].v),
        (vs[2].u, vs[2].v),
        (vs[4].u, vs[4].v),
    ];
    uvs.sort();
    assert_eq!(uvs, vec![(0, 0), (0, 1), (1, 0), (1, 1)]);
    // Positions span the map's pixel extents, in half-pixel units:
    // 32 px tiles * 2 tiles = 64 px, so corners sit at +-32 px = +-64 half-px.
    assert_eq!((vs[0].position_x2, vs[0].position_y2), (-64, -64));
    assert_eq!((vs[2].position_x2, vs[2].position_y2), (64, 64));
}

#[test]
fn plane_rejects_zero_dimensions() {
    assert_eq!(
        generate_tilemap_plane(0, 2, 2),
        Err(TilemapError::InvalidDimensions)
    );
    assert_eq!(
        generate_tilemap_plane(32, 0, 2),
        Err(TilemapError::InvalidDimensions)
    );
    assert_eq!(
        generate_tilemap_plane(32, 2, 0),
        Err(TilemapError::InvalidDimensions)
    );
}

#[test]
fn compile_scenario_two_by_two_ground() {
    // A 2x2 map on a 2x2 atlas, one layer "ground" with grid [[1,0],[2,3]]:
    // the encoded buffer carries the sentinel at row-major position 1 and
    // valid atlas coordinates at positions 0, 2 and 3.
    let desc = TileMapDescriptor {
        width: 2,
        height: 2,
        tile_width: 32,
        tile_height: 32,
        layers: vec![layer("ground", vec![vec![1, 0], vec![2, 3]])],
    };
    let compiled = compile_tilemap(&desc, &tileset_64x64_of_32px()).unwrap();
    assert_eq!(compiled.dimensions.width, 2);
    assert_eq!(compiled.dimensions.height, 2);
    assert_eq!(compiled.sheet, TilesheetDimensions { width: 2, height: 2 });
    assert_eq!(compiled.mesh.len(), 6);
    assert_eq!(compiled.texture_source, "tiles.png");
    assert_eq!(compiled.layers.len(), 1);
    let ground = &compiled.layers[0];
    assert_eq!(ground.layer.name, "ground");
    assert_eq!(
        ground.layer.tiles,
        vec![
            EncodedCell::Atlas { column: 0, row: 1 },
            EncodedCell::Empty,
            EncodedCell::Atlas { column: 1, row: 1 },
            EncodedCell::Atlas { column: 0, row: 0 },
        ]
    );
    // Placement: half the map's pixel extents, 2 * 32 / 2 = 32 px on each
    // axis, stored exactly as 64 half-pixels.
    assert_eq!(ground.placement.translation_x2, 64);
    assert_eq!(ground.placement.translation_y2, 64);
}

#[test]
fn placement_keeps_odd_extents_exact() {
    // A 1-tile map of 3 px tiles: half the extent is 1.5 px, which the
    // half-pixel representation carries exactly as 3.
    let desc = TileMapDescriptor {
        width: 1,
        height: 1,
        tile_width: 3,
        tile_height: 3,
        layers: vec![layer("ground", vec![vec![1]])],
    };
    let ts = TileSetInfo {
        atlas_width: 3,
        atlas_height: 3,
        tile_width: 3,
        tile_height: 3,
        source: String::from("tiles.png"),
    };
    let compiled = compile_tilemap(&desc, &ts).unwrap();
    let placement = compiled.layers[0].placement;
    assert_eq!(placement.translation_x2, 3);
    assert_eq!(placement.translation_y2, 3);
}

#[test]
fn compile_rejects_malformed_atlas_first() {
    let desc = TileMapDescriptor {
        width: 2,
        height: 2,
        tile_width: 32,
        tile_height: 32,
        layers: vec![],
    };
    let ts = TileSetInfo {
        atlas_width: 65,
        atlas_height: 64,
        tile_width: 32,
        tile_height: 32,
        source: String::from("tiles.png"),
    };
    assert_eq!(
        compile_tilemap(&desc, &ts).unwrap_err(),
        TilemapError::MalformedAtlas
    );
}

#[test]
fn compile_rejects_zero_map_dimensions() {
    let desc = TileMapDescriptor {
        width: 0,
        height: 2,
        tile_width: 32,
        tile_height: 32,
        layers: vec![],
    };
    assert_eq!(
        compile_tilemap(&desc, &tileset_64x64_of_32px()).unwrap_err(),
        TilemapError::InvalidDimensions
    );
}

#[test]
fn compile_rejects_wrong_grid_shape() {
    let desc = TileMapDescriptor {
        width: 2,
        height: 2,
        tile_width: 32,
        tile_height: 32,
        layers: vec![layer("ground", vec![vec![1]])],
    };
    assert_eq!(
        compile_tilemap(&desc, &tileset_64x64_of_32px()).unwrap_err(),
        TilemapError::GridSizeMismatch
    );
}

#[test]
fn compile_rejects_out_of_range_id() {
    let desc = TileMapDescriptor {
        width: 2,
        height: 2,
        tile_width: 32,
        tile_height: 32,
        layers: vec![layer("ground", vec![vec![1, 0], vec![2, 9]])],
    };
    assert_eq!(
        compile_tilemap(&desc, &tileset_64x64_of_32px()).unwrap_err(),
        TilemapError::TileIndexOutOfRange
    );
}

#[test]
fn compile_rejects_oversized_map() {
    // 65 * 64 = 4160 cells > 4096: a hard failure, not a truncation.
    let rows: Vec<Vec<u32>> = (0..64).map(|_| vec![0u32; 65]).collect();
    let desc = TileMapDescriptor {
        width: 65,
        height: 64,
        tile_width: 32,
        tile_height: 32,
        layers: vec![layer("ground", rows)],
    };
    assert_eq!(
        compile_tilemap(&desc, &tileset_64x64_of_32px()).unwrap_err(),
        TilemapError::CapacityExceeded
    );
}

#[test]
fn compile_accepts_map_without_layers() {
    let desc = TileMapDescriptor {
        width: 2,
        height: 2,
        tile_width: 32,
        tile_height: 32,
        layers: vec![],
    };
    let compiled = compile_tilemap(&desc, &tileset_64x64_of_32px()).unwrap();
    assert_eq!(compiled.layers.len(), 0);
    assert_eq!(compiled.mesh.len(), 6);
}

#[test]
fn compile_layer_matches_whole_map_compile() {
    let desc = TileMapDescriptor {
        width: 2,
        height: 1,
        tile_width: 16,
        tile_height: 16,
        layers: vec![],
    };
    let sheet = TilesheetDimensions { width: 2, height: 2 };
    let c = compile_layer(&desc, &layer("solo", vec![vec![4, 0]]), &sheet).unwrap();
    assert_eq!(c.layer.name, "solo");
    assert_eq!(
        c.layer.tiles,
        vec![EncodedCell::Atlas { column: 1, row: 0 }, EncodedCell::Empty]
    );
    // 2 * 16 = 32 and 1 * 16 = 16 half-pixels: 16 px and 8 px.
    assert_eq!(c.placement.translation_x2, 32);
    assert_eq!(c.placement.translation_y2, 16);
}
