//! Node centres, view bundles and visibility toggles of the grid debug views.
use vstd::prelude::*;
use ghx_grid::cartesian::coordinates::CartesianPosition;
use crate::geometry::{center_on_axis, doubled_center, NodeSize, NodeSize2, Translation2, Translation3};
use self::view::{DebugGridView, DebugGridView2d, DebugGridView3d};

pub mod markers;
pub mod view;

verus! {

/// A view configuration together with its 3D tag.
#[derive(Clone, Copy, Debug, PartialEq, Eq, Structural)]
pub struct DebugGridView3dBundle {
    pub view: DebugGridView,
    pub view_type: DebugGridView3d,
}

impl Default for DebugGridView3dBundle {
    fn default() -> (r: DebugGridView3dBundle)
        ensures
            r.view == DebugGridView::spec_default(),
    {
        DebugGridView3dBundle { view: DebugGridView::default(), view_type: DebugGridView3d }
    }
}

/// A view configuration together with its 2D tag.
#[derive(Clone, Copy, Debug, PartialEq, Eq, Structural)]
pub struct DebugGridView2dBundle {
    pub view: DebugGridView,
    pub view_type: DebugGridView2d,
}

impl Default for DebugGridView2dBundle {
    fn default() -> (r: DebugGridView2dBundle)
        ensures
            r.view == DebugGridView::spec_default(),
    {
        DebugGridView2dBundle { view: DebugGridView::default(), view_type: DebugGridView2d }
    }
}

/// Centre of the node at `(x, y, z)`, in half world units.
pub open spec fn spec_center_3d(x: int, y: int, z: int, node_size: NodeSize) -> Translation3 {
    Translation3 {
        x: doubled_center(x, node_size.x as int) as u128,
        y: doubled_center(y, node_size.y as int) as u128,
        z: doubled_center(z, node_size.z as int) as u128,
    }
}

/// Centre of the node at `(x, y)`, in half world units.
pub open spec fn spec_center_2d(x: int, y: int, node_size: NodeSize2) -> Translation2 {
    Translation2 {
        x: doubled_center(x, node_size.x as int) as u128,
        y: doubled_center(y, node_size.y as int) as u128,
    }
}

/// Centre of the node at `grid_pos`, in half world units: on each axis, twice
/// `(coordinate + 0.5) * node size`.
pub fn get_translation_from_grid_pos_3d(grid_pos: &CartesianPosition, node_size: &NodeSize) -> (r: Translation3)
    ensures
        r == spec_center_3d(grid_pos.x as int, grid_pos.y as int, grid_pos.z as int, *node_size),
{
    get_translation_from_grid_coords_3d(grid_pos.x, grid_pos.y, grid_pos.z, node_size)
}

/// Centre of the node at `(x, y, z)`, in half world units: on each axis, twice
/// `(coordinate + 0.5) * node size`.
pub fn get_translation_from_grid_coords_3d(x: u32, y: u32, z: u32, node_size: &NodeSize) -> (r: Translation3)
    ensures
        r == spec_center_3d(x as int, y as int, z as int, *node_size),
        r.x == (2 * x + 1) * node_size.x,
        r.y == (2 * y + 1) * node_size.y,
        r.z == (2 * z + 1) * node_size.z,
{
    Translation3 {
        x: center_on_axis(x, node_size.x),
        y: center_on_axis(y, node_size.y),
        z: center_on_axis(z, node_size.z),
    }
}

/// Planar centre of the node at `grid_pos`, in half world units; `z` is ignored.
pub fn get_translation_from_grid_pos_2d(grid_pos: &CartesianPosition, node_size: &NodeSize2) -> (r: Translation2)
    ensures
        r == spec_center_2d(grid_pos.x as int, grid_pos.y as int, *node_size),
{
    get_translation_from_grid_coords_2d(grid_pos.x, grid_pos.y, node_size)
}

/// Planar centre of the node at `(x, y)`, in half world units.
pub fn get_translation_from_grid_coords_2d(x: u32, y: u32, node_size: &NodeSize2) -> (r: Translation2)
    ensures
        r == spec_center_2d(x as int, y as int, *node_size),
        r.x == (2 * x + 1) * node_size.x,
        r.y == (2 * y + 1) * node_size.y,
{
    Translation2 { x: center_on_axis(x, node_size.x), y: center_on_axis(y, node_size.y) }
}

/// The view with its grid display flag flipped.
pub open spec fn with_grid_toggled(v: DebugGridView) -> DebugGridView {
    DebugGridView { display_grid: !v.display_grid, ..v }
}

/// The view with its marker display flag flipped.
pub open spec fn with_markers_toggled(v: DebugGridView) -> DebugGridView {
    DebugGridView { display_markers: !v.display_markers, ..v }
}

/// Flips whether the wireframe is shown, on every view.
pub fn toggle_debug_grids_visibilities(grid_views: &mut Vec<DebugGridView>)
    ensures
        final(grid_views)@ == old(grid_views)@.map_values(|v: DebugGridView| with_grid_toggled(v)),
{
    let n = grid_views.len();
    let mut i: usize = 0;
    while i < n
        invariant
            n == old(grid_views)@.len(),
            i <= n,
            grid_views@.len() == n,
            forall|j: int| 0 <= j < i ==> #[trigger] grid_views@[j] == with_grid_toggled(old(grid_views)@[j]),
            forall|j: int| i <= j < n ==> #[trigger] grid_views@[j] == old(grid_views)@[j],
        decreases n - i,
    {
        let mut v = grid_views[i];
        v.display_grid = !v.display_grid;
        grid_views.set(i, v);
        i = i + 1;
    }
    assert(grid_views@ =~= old(grid_views)@.map_values(|v: DebugGridView| with_grid_toggled(v)));
}

/// Flips whether the markers are shown, on every view.
pub fn toggle_grid_markers_visibilities(grid_views: &mut Vec<DebugGridView>)
    ensures
        final(grid_views)@ == old(grid_views)@.map_values(|v: DebugGridView| with_markers_toggled(v)),
{
    let n = grid_views.len();
    let mut i: usize = 0;
    while i < n
        invariant
            n == old(grid_views)@.len(),
            i <= n,
            grid_views@.len() == n,
            forall|j: int| 0 <= j < i ==> #[trigger] grid_views@[j] == with_markers_toggled(old(grid_views)@[j]),
            forall|j: int| i <= j < n ==> #[trigger] grid_views@[j] == old(grid_views)@[j],
        decreases n - i,
    {
        let mut v = grid_views[i];
        v.display_markers = !v.display_markers;
        grid_views.set(i, v);
        i = i + 1;
    }
    assert(grid_views@ =~= old(grid_views)@.map_values(|v: DebugGridView| with_markers_toggled(v)));
}

/// Toggling the grid display twice gives every view back as it was.
pub proof fn lemma_toggle_grid_twice(views: Seq<DebugGridView>)
    ensures
        views.map_values(|v: DebugGridView| with_grid_toggled(v)).map_values(
            |v: DebugGridView| with_grid_toggled(v),
        ) == views,
{
    assert(views.map_values(|v: DebugGridView| with_grid_toggled(v)).map_values(
        |v: DebugGridView| with_grid_toggled(v),
    ) =~= views);
}

/// Toggling the marker display twice gives every view back as it was.
pub proof fn lemma_toggle_markers_twice(views: Seq<DebugGridView>)
    ensures
        views.map_values(|v: DebugGridView| with_markers_toggled(v)).map_values(
            |v: DebugGridView| with_markers_toggled(v),
        ) == views,
{
    assert(views.map_values(|v: DebugGridView| with_markers_toggled(v)).map_values(
        |v: DebugGridView| with_markers_toggled(v),
    ) =~= views);
}

} // verus!
