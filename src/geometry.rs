//! Plain geometric values shared by the grid views and the markers.
//!
//! Lengths are integers. A node size is given in whole world units per axis;
//! grid-local points are in world units; node centres are in half world units,
//! so that the centre of a node of any integer size is exact.
use vstd::prelude::*;

verus! {

/// Declares the grid position type of `ghx_grid`, whose three public fields
/// (`x`, `y`, `z`, all `u32`) are read directly.
#[verifier::external_type_specification]
pub struct ExCartesianPosition(ghx_grid::cartesian::coordinates::CartesianPosition);

/// Number of nodes of a grid along each axis.
#[derive(Clone, Copy, Debug, PartialEq, Eq, Structural)]
pub struct GridSize {
    pub x: u32,
    pub y: u32,
    pub z: u32,
}

/// Size of one grid node in world units, on all three axes.
#[derive(Clone, Copy, Debug, PartialEq, Eq, Structural)]
pub struct NodeSize {
    pub x: u32,
    pub y: u32,
    pub z: u32,
}

/// Size of one grid node in world units, on the two planar axes.
#[derive(Clone, Copy, Debug, PartialEq, Eq, Structural)]
pub struct NodeSize2 {
    pub x: u32,
    pub y: u32,
}

/// A grid-local point, in world units.
#[derive(Clone, Copy, Debug, PartialEq, Eq, Structural)]
pub struct Point3 {
    pub x: u64,
    pub y: u64,
    pub z: u64,
}

/// A grid-local planar point, in world units.
#[derive(Clone, Copy, Debug, PartialEq, Eq, Structural)]
pub struct Point2 {
    pub x: u64,
    pub y: u64,
}

/// A translation in half world units: the world value of each coordinate is half of it.
#[derive(Clone, Copy, Debug, PartialEq, Eq, Structural)]
pub struct Translation3 {
    pub x: u128,
    pub y: u128,
    pub z: u128,
}

/// A planar translation in half world units.
#[derive(Clone, Copy, Debug, PartialEq, Eq, Structural)]
pub struct Translation2 {
    pub x: u128,
    pub y: u128,
}

/// An sRGB color with 8 bits per channel, alpha last.
#[derive(Clone, Copy, Debug, PartialEq, Eq, Structural)]
pub struct GizmoColor {
    pub r: u8,
    pub g: u8,
    pub b: u8,
    pub a: u8,
}

impl GizmoColor {
    /// Opaque white, the default color of the views.
    pub open spec fn spec_white() -> GizmoColor {
        GizmoColor { r: 255, g: 255, b: 255, a: 255 }
    }

    /// Opaque white.
    pub fn white() -> (r: GizmoColor)
        ensures
            r == GizmoColor::spec_white(),
    {
        GizmoColor { r: 255, g: 255, b: 255, a: 255 }
    }
}

impl NodeSize {
    /// A node of one world unit on every axis.
    pub open spec fn spec_one() -> NodeSize {
        NodeSize { x: 1, y: 1, z: 1 }
    }

    /// A node of one world unit on every axis.
    pub fn one() -> (r: NodeSize)
        ensures
            r == NodeSize::spec_one(),
    {
        NodeSize { x: 1, y: 1, z: 1 }
    }
}

/// Twice the world coordinate of the centre of node `c` along an axis whose
/// nodes measure `s`: twice `(c + 0.5) * s`.
pub open spec fn doubled_center(c: int, s: int) -> int {
    (2 * c + 1) * s
}

/// Twice the centre of node `c` on an axis of node size `s`.
pub fn center_on_axis(c: u32, s: u32) -> (r: u128)
    ensures
        r == doubled_center(c as int, s as int),
{
    let twice: u128 = 2 * (c as u128) + 1;
    assert(twice * (s as u128) <= 0x2_0000_0000u128 * 0x1_0000_0000u128) by (nonlinear_arith)
        requires
            twice <= 0x2_0000_0000u128,
            s <= 0xffff_ffffu32,
    ;
    twice * (s as u128)
}

} // verus!
