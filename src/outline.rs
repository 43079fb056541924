//! Wireframe of a cartesian grid, in grid-local world units.
//!
//! In 3D every grid-aligned plane boundary is a closed loop of five points; in 2D
//! every row and column boundary is one segment. Mapping the points through the
//! grid's own transform is left to the caller.
use vstd::prelude::*;
use crate::geometry::{GridSize, NodeSize, Point2, Point3};

verus! {

/// One polyline of a 3D wireframe.
#[derive(Clone, Debug, PartialEq, Eq)]
pub struct LineStrip3 {
    pub points: Vec<Point3>,
}

/// One segment of a 2D wireframe.
#[derive(Clone, Copy, Debug, PartialEq, Eq, Structural)]
pub struct Segment2 {
    pub from: Point2,
    pub to: Point2,
}

/// The grid-local point with the given coordinates.
pub open spec fn pt3(x: int, y: int, z: int) -> Point3 {
    Point3 { x: x as u64, y: y as u64, z: z as u64 }
}

/// The planar grid-local point with the given coordinates.
pub open spec fn pt2(x: int, y: int) -> Point2 {
    Point2 { x: x as u64, y: y as u64 }
}

/// The closed loop through four corners, back to the first.
pub open spec fn closed_loop(a: Point3, b: Point3, c: Point3, d: Point3) -> Seq<Point3> {
    seq![a, b, c, d, a]
}

/// Extent of the grid along x, in world units.
pub open spec fn end_x(size: GridSize, node: NodeSize) -> int {
    size.x * node.x
}

/// Extent of the grid along y, in world units.
pub open spec fn end_y(size: GridSize, node: NodeSize) -> int {
    size.y * node.y
}

/// Extent of the grid along z, in world units.
pub open spec fn end_z(size: GridSize, node: NodeSize) -> int {
    size.z * node.z
}

/// Boundary of the plane `x = c * node.x`.
pub open spec fn plane_x_loop(size: GridSize, node: NodeSize, c: int) -> Seq<Point3> {
    let cx = c * node.x;
    let ey = end_y(size, node);
    let ez = end_z(size, node);
    closed_loop(pt3(cx, 0, 0), pt3(cx, ey, 0), pt3(cx, ey, ez), pt3(cx, 0, ez))
}

/// Boundary of the plane `y = c * node.y`.
pub open spec fn plane_y_loop(size: GridSize, node: NodeSize, c: int) -> Seq<Point3> {
    let cy = c * node.y;
    let ex = end_x(size, node);
    let ez = end_z(size, node);
    closed_loop(pt3(0, cy, 0), pt3(ex, cy, 0), pt3(ex, cy, ez), pt3(0, cy, ez))
}

/// Boundary of the plane `z = c * node.z`.
pub open spec fn plane_z_loop(size: GridSize, node: NodeSize, c: int) -> Seq<Point3> {
    let cz = c * node.z;
    let ex = end_x(size, node);
    let ey = end_y(size, node);
    closed_loop(pt3(0, 0, cz), pt3(ex, 0, cz), pt3(ex, ey, cz), pt3(0, ey, cz))
}

/// Number of strips of a 3D wireframe: one per plane index on each axis, both ends included.
pub open spec fn strip_count_3d(size: GridSize) -> int {
    (size.x + 1) + (size.y + 1) + (size.z + 1)
}

/// The `i`-th strip of a 3D wireframe: first the x planes, then the y planes,
/// then the z planes, each in increasing order.
pub open spec fn outline_strip_3d(size: GridSize, node: NodeSize, i: int) -> Seq<Point3> {
    if i <= size.x {
        plane_x_loop(size, node, i)
    } else if i <= size.x + size.y + 1 {
        plane_y_loop(size, node, i - size.x - 1)
    } else {
        plane_z_loop(size, node, i - size.x - size.y - 2)
    }
}

/// Every strip of a 3D wireframe is a closed loop of five points.
pub proof fn lemma_strips_are_closed(size: GridSize, node: NodeSize, i: int)
    requires
        0 <= i < strip_count_3d(size),
    ensures
        outline_strip_3d(size, node, i).len() == 5,
        outline_strip_3d(size, node, i)[0] == outline_strip_3d(size, node, i)[4],
{
}

/// Number of segments of a 2D wireframe: one per row boundary and one per column boundary.
pub open spec fn segment_count_2d(size: GridSize) -> int {
    (size.y + 1) + (size.x + 1)
}

/// The `i`-th segment of a 2D wireframe: first the rows (horizontal, left to
/// right), then the columns (vertical, bottom to top), each in increasing order.
pub open spec fn outline_segment_2d(size: GridSize, node: NodeSize, i: int) -> Segment2 {
    if i <= size.y {
        let cy = i * node.y;
        Segment2 { from: pt2(0, cy), to: pt2(end_x(size, node), cy) }
    } else {
        let cx = (i - size.y - 1) * node.x;
        Segment2 { from: pt2(cx, 0), to: pt2(cx, end_y(size, node)) }
    }
}

/// Product of two `u32` as a `u64`, which cannot overflow.
fn scaled(c: u32, s: u32) -> (r: u64)
    ensures
        r == c * s,
{
    assert((c as u64) * (s as u64) <= 0xffff_ffffu64 * 0xffff_ffffu64) by (nonlinear_arith)
        requires
            c <= 0xffff_ffffu32,
            s <= 0xffff_ffffu32,
    ;
    (c as u64) * (s as u64)
}

/// The full 3D wireframe of a grid of `size` nodes of `node_size` world units:
/// one closed five-point loop per plane index on each axis, index 0 and the
/// size itself included.
pub fn grid_outline_3d(size: &GridSize, node_size: &NodeSize) -> (r: Vec<LineStrip3>)
    ensures
        r@.len() == strip_count_3d(*size),
        forall|i: int|
            0 <= i < r@.len() ==> (#[trigger] r@[i]).points@ == outline_strip_3d(
                *size,
                *node_size,
                i,
            ),
{
    let ex = scaled(size.x, node_size.x);
    let ey = scaled(size.y, node_size.y);
    let ez = scaled(size.z, node_size.z);
    let mut r: Vec<LineStrip3> = Vec::new();
    let mut x: u64 = 0;
    while x <= size.x as u64
        invariant
            x <= size.x + 1,
            r@.len() == x,
            ex == end_x(*size, *node_size),
            ey == end_y(*size, *node_size),
            ez == end_z(*size, *node_size),
            forall|i: int|
                0 <= i < r@.len() ==> (#[trigger] r@[i]).points@ == outline_strip_3d(
                    *size,
                    *node_size,
                    i,
                ),
        decreases size.x + 1 - x,
    {
        let cx = scaled(x as u32, node_size.x);
        let a = Point3 { x: cx, y: 0, z: 0 };
        let points = vec![a, Point3 { x: cx, y: ey, z: 0 }, Point3 { x: cx, y: ey, z: ez }, Point3 { x: cx, y: 0, z: ez }, a];
        assert(points@ =~= plane_x_loop(*size, *node_size, x as int));
        r.push(LineStrip3 { points });
        x = x + 1;
    }
    let base_y: usize = r.len();
    let mut y: u64 = 0;
    while y <= size.y as u64
        invariant
            y <= size.y + 1,
            base_y == size.x + 1,
            r@.len() == base_y + y,
            ex == end_x(*size, *node_size),
            ey == end_y(*size, *node_size),
            ez == end_z(*size, *node_size),
            forall|i: int|
                0 <= i < r@.len() ==> (#[trigger] r@[i]).points@ == outline_strip_3d(
                    *size,
                    *node_size,
                    i,
                ),
        decreases size.y + 1 - y,
    {
        let cy = scaled(y as u32, node_size.y);
        let a = Point3 { x: 0, y: cy, z: 0 };
        let points = vec![a, Point3 { x: ex, y: cy, z: 0 }, Point3 { x: ex, y: cy, z: ez }, Point3 { x: 0, y: cy, z: ez }, a];
        assert(points@ =~= plane_y_loop(*size, *node_size, y as int));
        r.push(LineStrip3 { points });
        y = y + 1;
    }
    let mut z: u64 = 0;
    while z <= size.z as u64
        invariant
            z <= size.z + 1,
            r@.len() == size.x + size.y + 2 + z,
            ex == end_x(*size, *node_size),
            ey == end_y(*size, *node_size),
            ez == end_z(*size, *node_size),
            forall|i: int|
                0 <= i < r@.len() ==> (#[trigger] r@[i]).points@ == outline_strip_3d(
                    *size,
                    *node_size,
                    i,
                ),
        decreases size.z + 1 - z,
    {
        let cz = scaled(z as u32, node_size.z);
        let a = Point3 { x: 0, y: 0, z: cz };
        let points = vec![a, Point3 { x: ex, y: 0, z: cz }, Point3 { x: ex, y: ey, z: cz }, Point3 { x: 0, y: ey, z: cz }, a];
        assert(points@ =~= plane_z_loop(*size, *node_size, z as int));
        r.push(LineStrip3 { points });
        z = z + 1;
    }
    r
}

/// The full 2D wireframe of a grid of `size` nodes of `node_size` world units:
/// one horizontal segment per row index, then one vertical segment per column
/// index, index 0 and the size itself included. The z axis is ignored.
pub fn grid_outline_2d(size: &GridSize, node_size: &NodeSize) -> (r: Vec<Segment2>)
    ensures
        r@.len() == segment_count_2d(*size),
        forall|i: int|
            0 <= i < r@.len() ==> #[trigger] r@[i] == outline_segment_2d(*size, *node_size, i),
{
    let ex = scaled(size.x, node_size.x);
    let ey = scaled(size.y, node_size.y);
    let mut r: Vec<Segment2> = Vec::new();
    let mut y: u64 = 0;
    while y <= size.y as u64
        invariant
            y <= size.y + 1,
            r@.len() == y,
            ex == end_x(*size, *node_size),
            ey == end_y(*size, *node_size),
            forall|i: int|
                0 <= i < r@.len() ==> #[trigger] r@[i] == outline_segment_2d(*size, *node_size, i),
        decreases size.y + 1 - y,
    {
        let cy = scaled(y as u32, node_size.y);
        r.push(Segment2 { from: Point2 { x: 0, y: cy }, to: Point2 { x: ex, y: cy } });
        y = y + 1;
    }
    let mut x: u64 = 0;
    while x <= size.x as u64
        invariant
            x <= size.x + 1,
            r@.len() == size.y + 1 + x,
            ex == end_x(*size, *node_size),
            ey == end_y(*size, *node_size),
            forall|i: int|
                0 <= i < r@.len() ==> #[trigger] r@[i] == outline_segment_2d(*size, *node_size, i),
        decreases size.x + 1 - x,
    {
        let cx = scaled(x as u32, node_size.x);
        r.push(Segment2 { from: Point2 { x: cx, y: 0 }, to: Point2 { x: cx, y: ey } });
        x = x + 1;
    }
    r
}

} // verus!
