//! Tile-grid encoding: a layer's raw tile identifiers become
//! renderer-consumable cells, one per map cell in row-major order, under a
//! fixed capacity bound.

use vstd::prelude::*;

use crate::error::TilemapError;

verus! {

/// Number of cells the shader-visible tile buffer can hold. A grid with
/// more cells than this must fail to encode; it is never silently
/// truncated.
pub const TILE_BUFFER_CAPACITY: usize = 4096;

/// One raw layer of a tile map: a name, unique within the map and used as
/// the draw-pass filter key, and a row-major grid of raw tile identifiers.
/// Identifier `0` means "no tile"; a positive identifier is a 1-based
/// index into the tileset atlas.
#[derive(Clone, Debug)]
pub struct TileLayer {
    pub name: String,
    pub tiles: Vec<Vec<u32>>,
}

/// One encoded cell of a layer: either the canonical empty-cell sentinel,
/// which the draw shader discards, or the atlas cell to sample. This
/// tagged form is the single encoding used everywhere; a sentinel can
/// never be read as a valid atlas cell.
#[derive(Clone, Copy, Debug, PartialEq, Eq, Structural)]
pub enum EncodedCell {
    /// No tile at this map cell.
    Empty,
    /// Sample the atlas cell at `column` and `row`, where row `0` is the
    /// visually bottom row of the atlas image (bottom-left-origin UV
    /// space).
    Atlas { column: u32, row: u32 },
}

/// A raw tile identifier fits the given atlas grid: either the empty
/// marker `0`, or a 1-based identifier whose zero-based form indexes one
/// of the `columns * rows` atlas cells.
pub open spec fn cell_in_range(v: u32, columns: u32, rows: u32) -> bool {
    v == 0 || v - 1 < columns * rows
}

/// Every cell of the sequence fits the given atlas grid.
pub open spec fn all_cells_in_range(cells: Seq<u32>, columns: u32, rows: u32) -> bool {
    forall|i: int| 0 <= i < cells.len() ==> cell_in_range(#[trigger] cells[i], columns, rows)
}

/// The encoding of one raw tile identifier. `0` becomes the sentinel.
/// A positive `v` is 1-based, so `v - 1` is the zero-based atlas cell,
/// read row-major from the atlas image's top-left corner; the flip
/// `rows - 1 - ...` turns its top-origin row into the bottom-origin row
/// convention of the encoded form.
pub open spec fn encode_cell(v: u32, columns: u32, rows: u32) -> EncodedCell
    recommends
        columns > 0,
        cell_in_range(v, columns, rows),
{
    if v == 0 {
        EncodedCell::Empty
    } else {
        EncodedCell::Atlas {
            column: ((v - 1) % columns as int) as u32,
            row: (rows - 1 - (v - 1) / columns as int) as u32,
        }
    }
}

/// The encoding of a whole cell sequence, cell by cell.
pub open spec fn encode_cells(cells: Seq<u32>, columns: u32, rows: u32) -> Seq<EncodedCell> {
    cells.map(|i: int, v: u32| encode_cell(v, columns, rows))
}

/// The cells of a row-major grid flattened into one sequence: the rows in
/// order, each row left to right.
pub open spec fn grid_cells(rows: Seq<Seq<u32>>) -> Seq<u32>
    decreases rows.len(),
{
    if rows.len() == 0 {
        Seq::empty()
    } else {
        rows[0] + grid_cells(rows.drop_first())
    }
}

/// The flattened cell sequence of a raw layer.
pub open spec fn layer_cells(layer: TileLayer) -> Seq<u32> {
    grid_cells(layer.tiles.deep_view())
}

/// Flattening one more row appends exactly that row.
pub proof fn lemma_grid_cells_take_step(rows: Seq<Seq<u32>>, i: int)
    requires
        0 <= i < rows.len(),
    ensures
        grid_cells(rows.take(i + 1)) == grid_cells(rows.take(i)) + rows[i],
    decreases i,
{
    if i == 0 {
        assert(rows.take(0) =~= Seq::<Seq<u32>>::empty());
        assert(rows.take(1).drop_first() =~= Seq::<Seq<u32>>::empty());
        assert(grid_cells(rows.take(1)) == rows.take(1)[0] + grid_cells(
            Seq::<Seq<u32>>::empty(),
        ));
        assert(grid_cells(rows.take(i + 1)) =~= grid_cells(rows.take(i)) + rows[i]);
    } else {
        let sub = rows.drop_first();
        lemma_grid_cells_take_step(sub, i - 1);
        assert(rows.take(i + 1).drop_first() =~= sub.take(i));
        assert(rows.take(i).drop_first() =~= sub.take(i - 1));
        assert(grid_cells(rows.take(i + 1)) =~= grid_cells(rows.take(i)) + rows[i]);
    }
}

/// Flattening a prefix of the rows yields a prefix of the flattened grid.
pub proof fn lemma_grid_cells_take_prefix(rows: Seq<Seq<u32>>, i: int)
    requires
        0 <= i <= rows.len(),
    ensures
        grid_cells(rows.take(i)).is_prefix_of(grid_cells(rows)),
    decreases rows.len() - i,
{
    if i == rows.len() {
        assert(rows.take(i) =~= rows);
    } else {
        lemma_grid_cells_take_step(rows, i);
        lemma_grid_cells_take_prefix(rows, i + 1);
        assert(grid_cells(rows.take(i)).is_prefix_of(grid_cells(rows.take(i + 1))));
    }
}

/// A grid of `n` rows of `width` cells each flattens to `n * width` cells.
pub proof fn lemma_grid_cells_len_uniform(rows: Seq<Seq<u32>>, width: int)
    requires
        forall|i: int| 0 <= i < rows.len() ==> (#[trigger] rows[i]).len() == width,
    ensures
        grid_cells(rows).len() == rows.len() * width,
    decreases rows.len(),
{
    if rows.len() == 0 {
    } else {
        let sub = rows.drop_first();
        assert(forall|i: int| 0 <= i < sub.len() ==> (#[trigger] sub[i]).len() == width);
        lemma_grid_cells_len_uniform(sub, width);
        assert((rows.len() - 1) * width + width == rows.len() * width) by (nonlinear_arith);
    }
}

/// Law: a zero tile identifier always encodes to the empty-cell sentinel,
/// and a nonzero identifier never does, so the sentinel can never resolve
/// to a valid atlas cell.
pub proof fn lemma_zero_encodes_to_sentinel(v: u32, columns: u32, rows: u32)
    ensures
        v == 0 ==> encode_cell(v, columns, rows) is Empty,
        v != 0 ==> !(encode_cell(v, columns, rows) is Empty),
{
}

/// Law: against an atlas two columns wide, identifier `1` encodes to the
/// leftmost cell of the visually top atlas row — column `0`, bottom-origin
/// row `rows - 1` — and identifier `2` to the cell beside it, whatever
/// grid the identifiers stand in. This pins the zero-based conversion and
/// the row flip.
pub proof fn lemma_two_column_encoding(cells: Seq<u32>, rows: u32, i: int)
    requires
        rows >= 1,
        0 <= i < cells.len(),
    ensures
        cells[i] == 1 ==> encode_cells(cells, 2, rows)[i]
            == (EncodedCell::Atlas { column: 0, row: (rows - 1) as u32 }),
        cells[i] == 2 ==> encode_cells(cells, 2, rows)[i]
            == (EncodedCell::Atlas { column: 1, row: (rows - 1) as u32 }),
{
}

/// Encodes one layer's raw grid into a tile buffer, one encoded cell per
/// grid cell in row-major order. Fails with `CapacityExceeded` when the
/// grid holds more than `TILE_BUFFER_CAPACITY` cells — never by silent
/// truncation — and otherwise with `TileIndexOutOfRange` when some
/// nonzero identifier points outside the atlas.
pub fn generate_tile_data(
    layer: &TileLayer,
    tilesheet_width: u32,
    tilesheet_height: u32,
) -> (r: Result<Vec<EncodedCell>, TilemapError>)
    requires
        tilesheet_width >= 1,
        tilesheet_height >= 1,
    ensures
        r is Ok <==> {
            &&& layer_cells(*layer).len() <= TILE_BUFFER_CAPACITY
            &&& all_cells_in_range(layer_cells(*layer), tilesheet_width, tilesheet_height)
        },
        r matches Ok(out) ==> out@ == encode_cells(
            layer_cells(*layer),
            tilesheet_width,
            tilesheet_height,
        ),
        r matches Ok(out) ==> forall|i: int|
            0 <= i < out@.len() ==> ((#[trigger] out@[i]) is Empty <==> layer_cells(*layer)[i] == 0),
        r == Err::<Vec<EncodedCell>, TilemapError>(TilemapError::CapacityExceeded)
            <==> layer_cells(*layer).len() > TILE_BUFFER_CAPACITY,
        r == Err::<Vec<EncodedCell>, TilemapError>(TilemapError::TileIndexOutOfRange) <==> {
            &&& layer_cells(*layer).len() <= TILE_BUFFER_CAPACITY
            &&& !all_cells_in_range(layer_cells(*layer), tilesheet_width, tilesheet_height)
        },
{
    let ghost cells = layer_cells(*layer);
    let ghost deep = layer.tiles.deep_view();
    let mut total: usize = 0;
    let mut i: usize = 0;
    while i < layer.tiles.len()
        invariant
            0 <= i <= layer.tiles@.len(),
            deep == layer.tiles.deep_view(),
            cells == grid_cells(deep),
            total == grid_cells(deep.take(i as int)).len(),
            total <= TILE_BUFFER_CAPACITY,
        decreases layer.tiles@.len() - i,
    {
        let row_len = layer.tiles[i].len();
        proof {
            assert(deep[i as int] =~= layer.tiles@[i as int]@);
            lemma_grid_cells_take_step(deep, i as int);
            lemma_grid_cells_take_prefix(deep, i as int + 1);
        }
        if row_len > TILE_BUFFER_CAPACITY - total {
            return Err(TilemapError::CapacityExceeded);
        }
        total = total + row_len;
        i = i + 1;
    }
    proof {
        assert(deep.take(layer.tiles@.len() as int) =~= deep);
    }
    let mut out: Vec<EncodedCell> = Vec::new();
    let mut i: usize = 0;
    while i < layer.tiles.len()
        invariant
            0 <= i <= layer.tiles@.len(),
            deep == layer.tiles.deep_view(),
            cells == grid_cells(deep),
            cells.len() <= TILE_BUFFER_CAPACITY,
            tilesheet_width >= 1,
            out@ == encode_cells(
                grid_cells(deep.take(i as int)),
                tilesheet_width,
                tilesheet_height,
            ),
            all_cells_in_range(grid_cells(deep.take(i as int)), tilesheet_width, tilesheet_height),
        decreases layer.tiles@.len() - i,
    {
        let row = &layer.tiles[i];
        proof {
            assert(deep[i as int] =~= row@);
            lemma_grid_cells_take_step(deep, i as int);
            lemma_grid_cells_take_prefix(deep, i as int + 1);
        }
        let ghost prefix = grid_cells(deep.take(i as int));
        let mut j: usize = 0;
        while j < row.len()
            invariant
                0 <= j <= row@.len(),
                deep == layer.tiles.deep_view(),
                cells == grid_cells(deep),
                cells.len() <= TILE_BUFFER_CAPACITY,
                tilesheet_width >= 1,
                prefix == grid_cells(deep.take(i as int)),
                (prefix + row@).is_prefix_of(cells),
                out@ == encode_cells(prefix + row@.take(j as int), tilesheet_width, tilesheet_height),
                all_cells_in_range(
                    prefix + row@.take(j as int),
                    tilesheet_width,
                    tilesheet_height,
                ),
            decreases row@.len() - j,
        {
            let v = row[j];
            let ghost done = prefix + row@.take(j as int);
            proof {
                assert((prefix + row@)[prefix.len() + j as int] == v);
                assert(cells[prefix.len() + j as int] == v);
            }
            if v == 0 {
                out.push(EncodedCell::Empty);
            } else {
                let idx = v - 1;
                proof {
                    vstd::arithmetic::mul::lemma_mul_upper_bound(
                        tilesheet_width as int,
                        u32::MAX as int,
                        tilesheet_height as int,
                        u32::MAX as int,
                    );
                }
                let cap: u64 = (tilesheet_width as u64) * (tilesheet_height as u64);
                if idx as u64 >= cap {
                    proof {
                        assert(!cell_in_range(cells[prefix.len() + j as int], tilesheet_width,
                            tilesheet_height));
                    }
                    return Err(TilemapError::TileIndexOutOfRange);
                }
                proof {
                    vstd::arithmetic::div_mod::lemma_multiply_divide_lt(
                        idx as int,
                        tilesheet_width as int,
                        tilesheet_height as int,
                    );
                }
                out.push(EncodedCell::Atlas {
                    column: idx % tilesheet_width,
                    row: tilesheet_height - 1 - idx / tilesheet_width,
                });
            }
            proof {
                assert(done.push(v) =~= prefix + row@.take(j as int + 1));
                assert(out@ =~= encode_cells(
                    prefix + row@.take(j as int + 1),
                    tilesheet_width,
                    tilesheet_height,
                ));
            }
            j = j + 1;
        }
        proof {
            assert(prefix + row@.take(row@.len() as int) =~= grid_cells(deep.take(i as int + 1)));
        }
        i = i + 1;
    }
    proof {
        assert(deep.take(layer.tiles@.len() as int) =~= deep);
        assert(forall|k: int|
            0 <= k < cells.len() ==> ((#[trigger] encode_cells(cells, tilesheet_width,
                tilesheet_height)[k]) is Empty <==> cells[k] == 0));
    }
    Ok(out)
}

} // verus!
