//! The per-frame draw pass: camera selection with graceful fallback,
//! layer filtering by name, and one draw call per selected layer. The
//! pass never fails; missing resources only degrade what a frame shows.

use vstd::prelude::*;

use crate::atlas::TilesheetDimensions;
use crate::compile::TilemapDimensions;
use crate::compile::TilemapLayer;
use crate::encode::EncodedCell;
use crate::encode::TILE_BUFFER_CAPACITY;

verus! {

/// What the draw pass reads of one camera in the scene: whether its
/// world transform has an inverse. A singular transform must never
/// panic the pass; it only degrades the view to the identity.
#[derive(Clone, Copy, Debug, PartialEq, Eq, Structural)]
pub struct CameraInfo {
    pub invertible: bool,
}

/// One drawable layer as the draw pass sees it each frame: the compiled
/// tile data, the sizes uploaded as per-frame uniforms, and the
/// readiness of the two assets the layer references.
#[derive(Clone, Debug)]
pub struct SceneLayer {
    pub layer: TilemapLayer,
    /// Map size in tiles, uploaded as the world-size uniform.
    pub dimensions: TilemapDimensions,
    /// Tileset grid size, uploaded as the tilesheet-size uniform.
    pub sheet: TilesheetDimensions,
    /// The shared plane mesh has finished loading. Without it nothing
    /// can be drawn, so the layer is skipped for this frame.
    pub mesh_ready: bool,
    /// The tileset texture has finished loading. Until it has, the pass
    /// binds the placeholder material instead of failing the frame.
    pub texture_ready: bool,
}

/// The scene one frame is drawn against: the cameras present, which of
/// them is designated active, if any, and every compiled tile layer.
#[derive(Clone, Debug)]
pub struct Scene {
    /// Index into `cameras` of the designated active camera. An absent
    /// or out-of-range designation falls back to the first camera.
    pub active_camera: Option<usize>,
    pub cameras: Vec<CameraInfo>,
    pub layers: Vec<SceneLayer>,
}

/// Which camera a frame uses: the designated active one when the scene
/// holds it, else the first camera present, else none — the pass then
/// degrades to identity projection and view rather than crash.
#[derive(Clone, Copy, Debug, PartialEq, Eq, Structural)]
pub enum CameraSelection {
    Designated { index: usize },
    Fallback { index: usize },
    NoCamera,
}

/// The view transform a draw call uses: the inverse of the selected
/// camera's world transform, or the identity when there is no camera or
/// its transform is singular.
#[derive(Clone, Copy, Debug, PartialEq, Eq, Structural)]
pub enum ViewTransform {
    InverseOf { camera: usize },
    Identity,
}

/// The texture a draw call binds: the layer's tileset texture, or the
/// placeholder material while the tileset is still loading.
#[derive(Clone, Copy, Debug, PartialEq, Eq, Structural)]
pub enum TextureBinding {
    Tilesheet,
    Placeholder,
}

/// One draw call of a frame: which scene layer it draws, the camera and
/// view transform it uses, the texture it binds, the per-frame uniform
/// sizes, and the tile buffer it uploads to the shader-visible region.
#[derive(Clone, Debug)]
pub struct DrawCall {
    pub layer_index: usize,
    pub camera: CameraSelection,
    pub view: ViewTransform,
    pub texture: TextureBinding,
    pub world_size: TilemapDimensions,
    pub sheet_size: TilesheetDimensions,
    pub tiles: Vec<EncodedCell>,
}

/// Every layer's tile buffer respects the shader-visible capacity; the
/// compiler establishes this for every layer it produces.
pub open spec fn scene_wf(scene: Scene) -> bool {
    forall|i: int|
        0 <= i < scene.layers@.len() ==> (#[trigger] scene.layers@[i]).layer.tiles@.len()
            <= TILE_BUFFER_CAPACITY
}

/// The camera a frame of this scene uses.
pub open spec fn camera_selection(scene: Scene) -> CameraSelection {
    match scene.active_camera {
        Some(i) => if i < scene.cameras@.len() {
            CameraSelection::Designated { index: i }
        } else if scene.cameras@.len() > 0 {
            CameraSelection::Fallback { index: 0 }
        } else {
            CameraSelection::NoCamera
        },
        None => if scene.cameras@.len() > 0 {
            CameraSelection::Fallback { index: 0 }
        } else {
            CameraSelection::NoCamera
        },
    }
}

/// The view transform that follows from a camera selection: the inverse
/// of the selected camera's transform when one exists, else identity.
pub open spec fn view_transform(sel: CameraSelection, cameras: Seq<CameraInfo>) -> ViewTransform {
    match sel {
        CameraSelection::Designated { index } => if index < cameras.len()
            && cameras[index as int].invertible {
            ViewTransform::InverseOf { camera: index }
        } else {
            ViewTransform::Identity
        },
        CameraSelection::Fallback { index } => if index < cameras.len()
            && cameras[index as int].invertible {
            ViewTransform::InverseOf { camera: index }
        } else {
            ViewTransform::Identity
        },
        CameraSelection::NoCamera => ViewTransform::Identity,
    }
}

/// A pass whose target is `name` draws this layer: the names are equal,
/// string equality, and the layer's mesh is ready.
pub open spec fn layer_selected(l: SceneLayer, name: Seq<char>) -> bool {
    l.layer.name@ == name && l.mesh_ready
}

/// The indices of the layers a pass draws, in scene order.
pub open spec fn selected_indices(layers: Seq<SceneLayer>, name: Seq<char>) -> Seq<int>
    decreases layers.len(),
{
    if layers.len() == 0 {
        Seq::empty()
    } else {
        let prefix = selected_indices(layers.drop_last(), name);
        if layer_selected(layers.last(), name) {
            prefix.push(layers.len() - 1)
        } else {
            prefix
        }
    }
}

/// The draw call `c` is exactly the one owed to scene layer `idx`: right
/// layer, this frame's camera and view, the layer's texture or the
/// placeholder, the layer's uniform sizes, and the layer's tile buffer.
pub open spec fn call_matches(c: DrawCall, scene: Scene, idx: int) -> bool
    recommends
        0 <= idx < scene.layers@.len(),
{
    let l = scene.layers@[idx];
    &&& c.layer_index == idx
    &&& c.camera == camera_selection(scene)
    &&& c.view == view_transform(camera_selection(scene), scene.cameras@)
    &&& c.texture == (if l.texture_ready {
        TextureBinding::Tilesheet
    } else {
        TextureBinding::Placeholder
    })
    &&& c.world_size == l.dimensions
    &&& c.sheet_size == l.sheet
    &&& c.tiles@ == l.layer.tiles@
}

/// Selects the camera for one frame: the designated active camera when
/// the scene holds it, else the first camera present, else none.
pub fn select_camera(scene: &Scene) -> (sel: CameraSelection)
    ensures
        sel == camera_selection(*scene),
{
    if let Some(i) = scene.active_camera {
        if i < scene.cameras.len() {
            return CameraSelection::Designated { index: i };
        }
    }
    if scene.cameras.len() > 0 {
        CameraSelection::Fallback { index: 0 }
    } else {
        CameraSelection::NoCamera
    }
}

/// Resolves the view transform for the selected camera: the inverse of
/// its world transform when the camera exists and is invertible, else
/// the identity — a singular camera never panics the pass.
pub fn camera_view(sel: CameraSelection, cameras: &Vec<CameraInfo>) -> (view: ViewTransform)
    ensures
        view == view_transform(sel, cameras@),
{
    match sel {
        CameraSelection::Designated { index } => {
            if index < cameras.len() && cameras[index].invertible {
                ViewTransform::InverseOf { camera: index }
            } else {
                ViewTransform::Identity
            }
        },
        CameraSelection::Fallback { index } => {
            if index < cameras.len() && cameras[index].invertible {
                ViewTransform::InverseOf { camera: index }
            } else {
                ViewTransform::Identity
            }
        },
        CameraSelection::NoCamera => ViewTransform::Identity,
    }
}

/// Copies a layer's encoded tile buffer into the draw call that uploads
/// it.
fn copy_cells(tiles: &Vec<EncodedCell>) -> (out: Vec<EncodedCell>)
    ensures
        out@ == tiles@,
{
    let mut out: Vec<EncodedCell> = Vec::new();
    let mut j: usize = 0;
    while j < tiles.len()
        invariant
            0 <= j <= tiles@.len(),
            out@ == tiles@.take(j as int),
        decreases tiles@.len() - j,
    {
        out.push(tiles[j]);
        proof {
            assert(tiles@.take(j as int).push(tiles@[j as int]) =~= tiles@.take(j as int + 1));
        }
        j = j + 1;
    }
    proof {
        assert(tiles@.take(tiles@.len() as int) =~= tiles@);
    }
    out
}

/// A configured draw pass bound to one layer name. Each frame it selects
/// a camera, scans the scene's compiled layers, keeps exactly those
/// whose name equals its target, and issues one draw call per kept
/// layer, in scene order. To composite transparently, register one pass
/// per layer name, back to front.
#[derive(Clone, Debug)]
pub struct DrawTilemap {
    pub layer_name: String,
}

impl DrawTilemap {
    /// Creates a pass that draws exactly the layers named `layer_name`.
    pub fn new(layer_name: &str) -> (pass: Self)
        ensures
            pass.layer_name@ == layer_name@,
    {
        DrawTilemap { layer_name: layer_name.to_owned() }
    }

    /// Plans one frame: one draw call per scene layer whose name equals
    /// the pass's target and whose mesh is ready, in scene order, each
    /// carrying this frame's camera and view, the layer's texture or the
    /// placeholder, the layer's uniforms and its tile buffer. The pass
    /// itself never fails; it only skips or degrades.
    pub fn apply(&self, scene: &Scene) -> (calls: Vec<DrawCall>)
        requires
            scene_wf(*scene),
        ensures
            calls@.len() == selected_indices(scene.layers@, self.layer_name@).len(),
            forall|k: int|
                0 <= k < calls@.len() ==> call_matches(
                    #[trigger] calls@[k],
                    *scene,
                    selected_indices(scene.layers@, self.layer_name@)[k],
                ),
            forall|k: int|
                0 <= k < calls@.len() ==> (#[trigger] calls@[k]).tiles@.len()
                    <= TILE_BUFFER_CAPACITY,
    {
        let sel = select_camera(scene);
        let view = camera_view(sel, &scene.cameras);
        let mut calls: Vec<DrawCall> = Vec::new();
        let mut i: usize = 0;
        while i < scene.layers.len()
            invariant
                0 <= i <= scene.layers@.len(),
                scene_wf(*scene),
                sel == camera_selection(*scene),
                view == view_transform(camera_selection(*scene), scene.cameras@),
                calls@.len() == selected_indices(
                    scene.layers@.take(i as int),
                    self.layer_name@,
                ).len(),
                forall|k: int|
                    0 <= k < calls@.len() ==> call_matches(
                        #[trigger] calls@[k],
                        *scene,
                        selected_indices(scene.layers@.take(i as int), self.layer_name@)[k],
                    ),
            decreases scene.layers@.len() - i,
        {
            let l = &scene.layers[i];
            let ghost prefix = selected_indices(scene.layers@.take(i as int), self.layer_name@);
            proof {
                assert(scene.layers@.take(i as int + 1).drop_last() =~= scene.layers@.take(
                    i as int,
                ));
                assert(scene.layers@.take(i as int + 1).last() == scene.layers@[i as int]);
            }
            if l.mesh_ready && l.layer.name == self.layer_name {
                let texture = if l.texture_ready {
                    TextureBinding::Tilesheet
                } else {
                    TextureBinding::Placeholder
                };
                let call = DrawCall {
                    layer_index: i,
                    camera: sel,
                    view,
                    texture,
                    world_size: l.dimensions,
                    sheet_size: l.sheet,
                    tiles: copy_cells(&l.layer.tiles),
                };
                calls.push(call);
                proof {
                    assert(selected_indices(scene.layers@.take(i as int + 1), self.layer_name@)
                        =~= prefix.push(i as int));
                }
            } else {
                proof {
                    assert(selected_indices(scene.layers@.take(i as int + 1), self.layer_name@)
                        =~= prefix);
                }
            }
            i = i + 1;
        }
        proof {
            assert(scene.layers@.take(scene.layers@.len() as int) =~= scene.layers@);
            lemma_selected_indices_exact(scene.layers@, self.layer_name@);
            assert forall|k: int|
                0 <= k < calls@.len() implies (#[trigger] calls@[k]).tiles@.len()
                <= TILE_BUFFER_CAPACITY by {
                let idx = selected_indices(scene.layers@, self.layer_name@)[k];
                assert(call_matches(calls@[k], *scene, idx));
                assert(0 <= idx < scene.layers@.len());
                assert(scene.layers@[idx].layer.tiles@.len() <= TILE_BUFFER_CAPACITY);
            }
        }
        calls
    }
}

/// Law: a pass draws exactly the matching, mesh-ready layers — a scene
/// index is among the selected indices if and only if its layer matches
/// the pass's target and is ready — and the selected indices come in
/// strictly increasing scene order, so draw order within one pass is the
/// scene's order.
pub proof fn lemma_selected_indices_exact(layers: Seq<SceneLayer>, name: Seq<char>)
    ensures
        forall|i: int|
            0 <= i < layers.len() && layer_selected(#[trigger] layers[i], name)
                ==> selected_indices(layers, name).contains(i),
        forall|k: int|
            0 <= k < selected_indices(layers, name).len() ==> {
                let i = #[trigger] selected_indices(layers, name)[k];
                0 <= i < layers.len() && layer_selected(layers[i], name)
            },
        forall|k1: int, k2: int|
            #![trigger selected_indices(layers, name)[k1], selected_indices(layers, name)[k2]]
            0 <= k1 < k2 < selected_indices(layers, name).len() ==> selected_indices(
                layers,
                name,
            )[k1] < selected_indices(layers, name)[k2],
    decreases layers.len(),
{
    if layers.len() == 0 {
    } else {
        let prefix = layers.drop_last();
        let n = layers.len() - 1;
        lemma_selected_indices_exact(prefix, name);
        let psel = selected_indices(prefix, name);
        assert(forall|i: int| 0 <= i < n ==> prefix[i] == layers[i]);
        assert forall|i: int|
            0 <= i < layers.len() && layer_selected(#[trigger] layers[i], name)
            implies selected_indices(layers, name).contains(i) by {
            if i < n {
                assert(psel.contains(i));
                let w = choose|w: int| 0 <= w < psel.len() && psel[w] == i;
                assert(selected_indices(layers, name)[w] == i);
            } else {
                assert(layer_selected(layers.last(), name));
                assert(selected_indices(layers, name).last() == i);
            }
        }
    }
}

} // verus!
