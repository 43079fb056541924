//! Debug view configuration of a grid, and the wireframe it asks to draw.
use vstd::prelude::*;
use crate::geometry::{GizmoColor, GridSize, NodeSize};
use crate::outline::{
    grid_outline_2d, grid_outline_3d, outline_segment_2d, outline_strip_3d, segment_count_2d,
    strip_count_3d, LineStrip3, Segment2,
};

verus! {

/// Tag of a grid view drawn for a 3D camera.
#[derive(Clone, Copy, Debug, Default, PartialEq, Eq, Structural)]
pub struct DebugGridView3d;

/// Tag of a grid view drawn for a 2D camera.
#[derive(Clone, Copy, Debug, Default, PartialEq, Eq, Structural)]
pub struct DebugGridView2d;

/// Drawing group of the grid wireframes.
#[derive(Clone, Copy, Debug, Default, PartialEq, Eq, Structural)]
pub struct GridViewGizmoGroup;

/// Debug view configuration of one grid.
#[derive(Clone, Copy, Debug, PartialEq, Eq, Structural)]
pub struct DebugGridView {
    /// Whether the wireframe of the grid is drawn.
    pub display_grid: bool,
    /// Whether the markers of the grid are drawn.
    pub display_markers: bool,
    /// Color of the wireframe.
    pub color: GizmoColor,
    /// Size of a grid node in world units on all three axes.
    pub node_size: NodeSize,
}

impl DebugGridView {
    /// The default view: everything shown, white, nodes of one world unit.
    pub open spec fn spec_default() -> DebugGridView {
        DebugGridView {
            display_grid: true,
            display_markers: true,
            color: GizmoColor::spec_white(),
            node_size: NodeSize::spec_one(),
        }
    }

    /// A view with the given settings.
    pub fn new(display_grid: bool, display_markers: bool, color: GizmoColor, node_size: NodeSize) -> (r: DebugGridView)
        ensures
            r == (DebugGridView { display_grid, display_markers, color, node_size }),
    {
        DebugGridView { display_grid, display_markers, color, node_size }
    }
}

impl Default for DebugGridView {
    fn default() -> (r: DebugGridView)
        ensures
            r == DebugGridView::spec_default(),
    {
        DebugGridView {
            display_grid: true,
            display_markers: true,
            color: GizmoColor::white(),
            node_size: NodeSize::one(),
        }
    }
}

/// The strips to draw this frame for a grid of `size` seen through a 3D view:
/// its whole wireframe when the view displays the grid, nothing otherwise.
pub fn draw_debug_grids_3d(size: &GridSize, view: &DebugGridView) -> (r: Vec<LineStrip3>)
    ensures
        !view.display_grid ==> r@.len() == 0,
        view.display_grid ==> r@.len() == strip_count_3d(*size),
        view.display_grid ==> forall|i: int|
            0 <= i < r@.len() ==> (#[trigger] r@[i]).points@ == outline_strip_3d(
                *size,
                view.node_size,
                i,
            ),
{
    if !view.display_grid {
        return Vec::new();
    }
    grid_outline_3d(size, &view.node_size)
}

/// The segments to draw this frame for a grid of `size` seen through a 2D view:
/// its whole planar wireframe when the view displays the grid, nothing otherwise.
pub fn draw_debug_grids_2d(size: &GridSize, view: &DebugGridView) -> (r: Vec<Segment2>)
    ensures
        !view.display_grid ==> r@.len() == 0,
        view.display_grid ==> r@.len() == segment_count_2d(*size),
        view.display_grid ==> forall|i: int|
            0 <= i < r@.len() ==> #[trigger] r@[i] == outline_segment_2d(*size, view.node_size, i),
{
    if !view.display_grid {
        return Vec::new();
    }
    grid_outline_2d(size, &view.node_size)
}

} // verus!
