//! The shared plane mesh: one quad sized to the map's pixel extents,
//! triangulated into a six-vertex triangle list and reused by every layer
//! of the map.

use vstd::prelude::*;

use crate::error::TilemapError;

verus! {

/// One vertex of the tile-map plane: a position and a texture coordinate.
///
/// Positions are exact integers in half-pixel units: a vertex whose
/// `position_x2` is `p` stands at `p / 2` pixels, so the quad corner at
/// `tilesize * width / 2` pixels is stored as the integer
/// `tilesize * width`, with no rounding. Texture coordinates span the
/// unit square: `u` and `v` are each `0` or `1`. `v` is flipped to match
/// the encoder's row convention — the visually top edge of the plane
/// carries `v == 0` and the bottom edge `v == 1`.
#[derive(Clone, Copy, Debug, PartialEq, Eq, Structural)]
pub struct PlaneVertex {
    pub position_x2: i64,
    pub position_y2: i64,
    pub u: u32,
    pub v: u32,
}

/// Corner `k` of the plane's quad, counter-clockwise from the bottom-left:
/// corners `0..4` are bottom-left, bottom-right, top-right, top-left. The
/// quad spans `-half..+half` of the map's pixel extents on each axis,
/// which in half-pixel units is `-(tilesize * width)..+(tilesize * width)`.
pub open spec fn plane_corner(tilesize: u32, width: u32, height: u32, k: int) -> PlaneVertex
    recommends
        0 <= k < 4,
        tilesize * width <= u32::MAX,
        tilesize * height <= u32::MAX,
{
    let hx = tilesize * width;
    let hy = tilesize * height;
    if k == 0 {
        PlaneVertex { position_x2: (-hx) as i64, position_y2: (-hy) as i64, u: 0, v: 1 }
    } else if k == 1 {
        PlaneVertex { position_x2: hx as i64, position_y2: (-hy) as i64, u: 1, v: 1 }
    } else if k == 2 {
        PlaneVertex { position_x2: hx as i64, position_y2: hy as i64, u: 1, v: 0 }
    } else {
        PlaneVertex { position_x2: (-hx) as i64, position_y2: hy as i64, u: 0, v: 0 }
    }
}

/// The plane's triangle list: the quad's two triangles — corners 0, 1, 2
/// and corners 2, 3, 0 — written out as six vertex references.
pub open spec fn plane_vertices(tilesize: u32, width: u32, height: u32) -> Seq<PlaneVertex> {
    seq![
        plane_corner(tilesize, width, height, 0),
        plane_corner(tilesize, width, height, 1),
        plane_corner(tilesize, width, height, 2),
        plane_corner(tilesize, width, height, 2),
        plane_corner(tilesize, width, height, 3),
        plane_corner(tilesize, width, height, 0),
    ]
}

/// Builds the map's shared plane: a single quad whose positions span the
/// map's pixel extents centered on the origin and whose texture
/// coordinates span the unit square, triangulated into an indexed
/// triangle list of two triangles flattened to six vertices. The only
/// failure mode is a zero dimension.
pub fn generate_tilemap_plane(
    tilesize: u32,
    tilemap_width: u32,
    tilemap_height: u32,
) -> (r: Result<Vec<PlaneVertex>, TilemapError>)
    requires
        tilesize > 0 && tilemap_width > 0 && tilemap_height > 0 ==> {
            &&& tilesize * tilemap_width <= u32::MAX
            &&& tilesize * tilemap_height <= u32::MAX
        },
    ensures
        r is Ok <==> tilesize > 0 && tilemap_width > 0 && tilemap_height > 0,
        r matches Ok(vs) ==> vs@ == plane_vertices(tilesize, tilemap_width, tilemap_height),
        r is Err ==> r == Err::<Vec<PlaneVertex>, TilemapError>(TilemapError::InvalidDimensions),
{
    if tilesize == 0 || tilemap_width == 0 || tilemap_height == 0 {
        return Err(TilemapError::InvalidDimensions);
    }
    let hx: u32 = tilesize * tilemap_width;
    let hy: u32 = tilesize * tilemap_height;
    let c0 = PlaneVertex { position_x2: -(hx as i64), position_y2: -(hy as i64), u: 0, v: 1 };
    let c1 = PlaneVertex { position_x2: hx as i64, position_y2: -(hy as i64), u: 1, v: 1 };
    let c2 = PlaneVertex { position_x2: hx as i64, position_y2: hy as i64, u: 1, v: 0 };
    let c3 = PlaneVertex { position_x2: -(hx as i64), position_y2: hy as i64, u: 0, v: 0 };
    let mut vs: Vec<PlaneVertex> = Vec::new();
    vs.push(c0);
    vs.push(c1);
    vs.push(c2);
    vs.push(c2);
    vs.push(c3);
    vs.push(c0);
    proof {
        assert(vs@ =~= plane_vertices(tilesize, tilemap_width, tilemap_height));
    }
    Ok(vs)
}

/// Law: the generated plane is exactly two triangles — six vertex
/// references, where the fourth reuses the third corner and the sixth
/// closes on the first — and the texture coordinates of the references
/// cover exactly the four corners of the unit square.
pub proof fn lemma_plane_two_triangles_unit_uv(tilesize: u32, width: u32, height: u32)
    ensures
        plane_vertices(tilesize, width, height).len() == 6,
        plane_vertices(tilesize, width, height)[3] == plane_vertices(tilesize, width, height)[2],
        plane_vertices(tilesize, width, height)[5] == plane_vertices(tilesize, width, height)[0],
        forall|k: int| 0 <= k < 6 ==> {
            let vx = #[trigger] plane_vertices(tilesize, width, height)[k];
            (vx.u == 0 || vx.u == 1) && (vx.v == 0 || vx.v == 1)
        },
        ({
            let vs = plane_vertices(tilesize, width, height);
            &&& vs[0].u == 0 && vs[0].v == 1
            &&& vs[1].u == 1 && vs[1].v == 1
            &&& vs[2].u == 1 && vs[2].v == 0
            &&& vs[4].u == 0 && vs[4].v == 0
        }),
{
}

} // verus!
