//! Markers attached to grids: their records, placement, removal and drawing.
//!
//! A marker record names its own entity and the grid entity it is parented to.
//! It starts without a placement and receives one, once, from the first pass
//! that finds a view configuration on its grid.
use vstd::prelude::*;
use ghx_grid::cartesian::coordinates::CartesianPosition;
use crate::geometry::{GizmoColor, NodeSize, Translation3};
use super::{get_translation_from_grid_pos_3d, spec_center_3d};
use super::view::DebugGridView;

verus! {

/// Identity of an entity of the host, as its 64-bit encoding.
#[derive(Clone, Copy, Debug, PartialEq, Eq, Structural)]
pub struct EntityId {
    pub bits: u64,
}

/// A request to remove markers.
#[derive(Clone, Copy, Debug, PartialEq, Eq, Structural)]
pub enum MarkerDespawnEvent {
    /// Remove this marker entity.
    Marker(EntityId),
    /// Remove every marker of this grid entity.
    Grid(EntityId),
    /// Remove every marker of every grid.
    All,
}

/// A marker to be displayed on a grid.
#[derive(Clone, Copy, Debug)]
pub struct GridMarker {
    /// Color of the marker gizmo.
    pub color: GizmoColor,
    /// Grid position of the marker.
    pub pos: CartesianPosition,
}

impl GridMarker {
    /// A marker of the given color at the given grid position.
    pub fn new(color: GizmoColor, pos: CartesianPosition) -> (r: GridMarker)
        ensures
            r.color == color,
            r.pos == pos,
    {
        GridMarker { color, pos }
    }
}

/// Drawing group of the markers.
#[derive(Clone, Copy, Debug, Default, PartialEq, Eq, Structural)]
pub struct MarkersGroup;

/// A marker entity as the host holds it.
#[derive(Clone, Copy, Debug)]
pub struct MarkerRecord {
    /// The marker's own entity.
    pub entity: EntityId,
    /// The grid entity the marker is parented to.
    pub parent: EntityId,
    /// What the marker shows.
    pub marker: GridMarker,
    /// Its local translation once placed, in half world units; `None` while unplaced.
    pub placement: Option<Translation3>,
}

/// A grid entity that carries a view configuration, with the tags it carries.
#[derive(Clone, Copy, Debug)]
pub struct GridViewRecord {
    pub grid: EntityId,
    pub view: DebugGridView,
    /// The grid is drawn for a 3D camera.
    pub view_3d: bool,
    /// The grid is drawn for a 2D camera.
    pub view_2d: bool,
}

/// Size of a marker box, in twentieths of a world unit.
#[derive(Clone, Copy, Debug, PartialEq, Eq, Structural)]
pub struct MarkerBoxSize {
    pub x: u64,
    pub y: u64,
    pub z: u64,
}

/// Size of a marker rectangle, in twentieths of a world unit.
#[derive(Clone, Copy, Debug, PartialEq, Eq, Structural)]
pub struct MarkerRectSize {
    pub x: u64,
    pub y: u64,
}

/// A marker to draw as a box centred on its entity's world position.
#[derive(Clone, Copy, Debug, PartialEq, Eq, Structural)]
pub struct MarkerBox {
    pub entity: EntityId,
    pub color: GizmoColor,
    pub size: MarkerBoxSize,
}

/// A marker to draw as a rectangle centred on its entity's planar world position.
#[derive(Clone, Copy, Debug, PartialEq, Eq, Structural)]
pub struct MarkerRect {
    pub entity: EntityId,
    pub color: GizmoColor,
    pub size: MarkerRectSize,
}

/// A marker is drawn slightly larger than its node, so that it does not sit on
/// the grid lines: this many twentieths of the node size.
pub const MARKER_SCALE_TWENTIETHS: u64 = 21;

// ---------------------------------------------------------------- despawn

/// Whether `event` asks for the removal of the marker `r`.
pub open spec fn hits(event: MarkerDespawnEvent, r: MarkerRecord) -> bool {
    match event {
        MarkerDespawnEvent::Marker(id) => r.entity == id,
        MarkerDespawnEvent::Grid(g) => r.parent == g,
        MarkerDespawnEvent::All => true,
    }
}

/// Whether some event of `events` asks for the removal of the marker `r`.
pub open spec fn despawned_by(events: Seq<MarkerDespawnEvent>, r: MarkerRecord) -> bool {
    exists|i: int| 0 <= i < events.len() && hits(#[trigger] events[i], r)
}

/// The markers left, in their order, once every event of `events` is handled.
pub open spec fn survivors(markers: Seq<MarkerRecord>, events: Seq<MarkerDespawnEvent>) -> Seq<MarkerRecord> {
    markers.filter(|r: MarkerRecord| !despawned_by(events, r))
}

/// The entities removed, in their order, when every event of `events` is handled.
pub open spec fn removed(markers: Seq<MarkerRecord>, events: Seq<MarkerDespawnEvent>) -> Seq<EntityId> {
    markers.filter_map(|r: MarkerRecord| if despawned_by(events, r) { Some(r.entity) } else { None })
}

fn hits_any(events: &Vec<MarkerDespawnEvent>, r: &MarkerRecord) -> (b: bool)
    ensures
        b == despawned_by(events@, *r),
{
    let mut i: usize = 0;
    while i < events.len()
        invariant
            i <= events@.len(),
            forall|j: int| 0 <= j < i ==> !hits(#[trigger] events@[j], *r),
        decreases events@.len() - i,
    {
        let hit = match events[i] {
            MarkerDespawnEvent::Marker(id) => r.entity == id,
            MarkerDespawnEvent::Grid(g) => r.parent == g,
            MarkerDespawnEvent::All => true,
        };
        if hit {
            assert(hits(events@[i as int], *r));
            return true;
        }
        i = i + 1;
    }
    false
}

/// Handles every pending removal request at once: the markers that some event
/// names (by entity, by grid, or all of them) leave `markers`, the others stay
/// in their order, and the removed entities are returned in their order.
/// An event that names no present marker removes nothing.
pub fn despawn_debug_markers(markers: &mut Vec<MarkerRecord>, events: &Vec<MarkerDespawnEvent>) -> (gone: Vec<EntityId>)
    ensures
        final(markers)@ == survivors(old(markers)@, events@),
        gone@ == removed(old(markers)@, events@),
{
    let ghost start = markers@;
    let ghost keep = |r: MarkerRecord| !despawned_by(events@, r);
    let ghost take_out = |r: MarkerRecord| if despawned_by(events@, r) { Some(r.entity) } else { None };
    let mut kept: Vec<MarkerRecord> = Vec::new();
    let mut gone: Vec<EntityId> = Vec::new();
    let mut i: usize = 0;
    while i < markers.len()
        invariant
            markers@ == start,
            i <= start.len(),
            keep == (|r: MarkerRecord| !despawned_by(events@, r)),
            take_out == (|r: MarkerRecord| if despawned_by(events@, r) { Some(r.entity) } else { None }),
            kept@ == start.take(i as int).filter(keep),
            gone@ == start.take(i as int).filter_map(take_out),
        decreases start.len() - i,
    {
        let r = markers[i];
        let hit = hits_any(events, &r);
        if hit {
            gone.push(r.entity);
        } else {
            kept.push(r);
        }
        proof {
            reveal(Seq::filter);
            let t = start.take(i + 1);
            assert(t.drop_last() =~= start.take(i as int));
            assert(t.last() == r);
            assert(keep(r) == !hit);
            assert(t.filter(keep) =~= kept@);
            assert(t.filter_map(take_out) =~= gone@);
        }
        i = i + 1;
    }
    assert(start.take(start.len() as int) =~= start);
    *markers = kept;
    gone
}

/// Filtering keeps a sequence whole when every element passes.
proof fn lemma_filter_keeps_all(s: Seq<MarkerRecord>, pred: spec_fn(MarkerRecord) -> bool)
    requires
        forall|i: int| 0 <= i < s.len() ==> pred(#[trigger] s[i]),
    ensures
        s.filter(pred) == s,
    decreases s.len(),
{
    reveal(Seq::filter);
    if s.len() > 0 {
        lemma_filter_keeps_all(s.drop_last(), pred);
        assert(s.drop_last().push(s.last()) =~= s);
    }
}

/// Removing the markers of grid `g` takes out exactly the markers parented to
/// `g` and keeps every other marker, in its order; doing it a second time, in
/// the same batch or in the next one, changes nothing more.
pub proof fn lemma_despawn_grid(markers: Seq<MarkerRecord>, g: EntityId)
    ensures
        survivors(markers, seq![MarkerDespawnEvent::Grid(g)]) == markers.filter(
            |r: MarkerRecord| r.parent != g,
        ),
        survivors(markers, seq![MarkerDespawnEvent::Grid(g), MarkerDespawnEvent::Grid(g)])
            == survivors(markers, seq![MarkerDespawnEvent::Grid(g)]),
        survivors(survivors(markers, seq![MarkerDespawnEvent::Grid(g)]), seq![MarkerDespawnEvent::Grid(g)])
            == survivors(markers, seq![MarkerDespawnEvent::Grid(g)]),
{
    let once = seq![MarkerDespawnEvent::Grid(g)];
    let twice = seq![MarkerDespawnEvent::Grid(g), MarkerDespawnEvent::Grid(g)];
    let keep_once = |r: MarkerRecord| !despawned_by(once, r);
    let keep_twice = |r: MarkerRecord| !despawned_by(twice, r);
    let other = |r: MarkerRecord| r.parent != g;
    assert forall|r: MarkerRecord| #[trigger] keep_once(r) == other(r) by {
        if r.parent == g {
            assert(hits(once[0], r));
        }
    }
    assert forall|r: MarkerRecord| #[trigger] keep_twice(r) == other(r) by {
        if r.parent == g {
            assert(hits(twice[0], r));
        }
    }
    assert(keep_once =~= other);
    assert(keep_twice =~= other);
    let after = markers.filter(other);
    assert forall|i: int| 0 <= i < after.len() implies other(#[trigger] after[i]) by {
        markers.lemma_filter_pred(other, i);
    }
    lemma_filter_keeps_all(after, other);
}

// ---------------------------------------------------------------- spawn

/// Records a new marker entity `marker_entity`, parented to `grid_entity`,
/// unplaced, at the end of `markers`; returns its entity.
pub fn spawn_marker(
    markers: &mut Vec<MarkerRecord>,
    grid_entity: EntityId,
    marker_entity: EntityId,
    color: GizmoColor,
    pos: CartesianPosition,
) -> (r: EntityId)
    ensures
        r == marker_entity,
        final(markers)@ == old(markers)@.push(
            MarkerRecord {
                entity: marker_entity,
                parent: grid_entity,
                marker: GridMarker { color, pos },
                placement: None,
            },
        ),
{
    markers.push(
        MarkerRecord {
            entity: marker_entity,
            parent: grid_entity,
            marker: GridMarker::new(color, pos),
            placement: None,
        },
    );
    marker_entity
}

// ---------------------------------------------------------------- placement

/// The view configuration carried by grid `g`: the first record of `views` for `g`.
pub open spec fn view_of(views: Seq<GridViewRecord>, g: EntityId) -> Option<GridViewRecord>
    decreases views.len(),
{
    if views.len() == 0 {
        None
    } else if views[0].grid == g {
        Some(views[0])
    } else {
        view_of(views.drop_first(), g)
    }
}

/// Looks up the view configuration of grid `g`.
pub fn find_view(views: &Vec<GridViewRecord>, g: EntityId) -> (r: Option<GridViewRecord>)
    ensures
        r == view_of(views@, g),
{
    let mut i: usize = 0;
    assert(views@.skip(0) =~= views@);
    while i < views.len()
        invariant
            i <= views@.len(),
            view_of(views@, g) == view_of(views@.skip(i as int), g),
        decreases views@.len() - i,
    {
        if views[i].grid == g {
            return Some(views[i]);
        }
        assert(views@.skip(i as int).drop_first() =~= views@.skip(i + 1));
        i = i + 1;
    }
    None
}

/// One placement pass on one marker: an unplaced marker whose grid has a view
/// configuration gets the centre of its node as translation; any other marker
/// is left as it is.
pub open spec fn place_one(views: Seq<GridViewRecord>, r: MarkerRecord) -> MarkerRecord {
    if r.placement is None {
        match view_of(views, r.parent) {
            Some(v) => MarkerRecord {
                placement: Some(
                    spec_center_3d(
                        r.marker.pos.x as int,
                        r.marker.pos.y as int,
                        r.marker.pos.z as int,
                        v.view.node_size,
                    ),
                ),
                ..r
            },
            None => r,
        }
    } else {
        r
    }
}

/// One placement pass over all markers.
pub open spec fn placement_pass(views: Seq<GridViewRecord>, markers: Seq<MarkerRecord>) -> Seq<MarkerRecord> {
    markers.map_values(|r: MarkerRecord| place_one(views, r))
}

/// `n` placement passes in a row, with the same view configurations.
pub open spec fn placement_passes(views: Seq<GridViewRecord>, markers: Seq<MarkerRecord>, n: nat) -> Seq<MarkerRecord>
    decreases n,
{
    if n == 0 {
        markers
    } else {
        placement_pass(views, placement_passes(views, markers, (n - 1) as nat))
    }
}

/// Gives each unplaced marker whose grid has a view configuration the centre of
/// its node, in that view's node size. Placed markers, and markers whose grid
/// has no view configuration, are left as they are.
pub fn insert_transform_on_new_markers(views: &Vec<GridViewRecord>, markers: &mut Vec<MarkerRecord>)
    ensures
        final(markers)@ == placement_pass(views@, old(markers)@),
{
    let n = markers.len();
    let mut i: usize = 0;
    while i < n
        invariant
            n == old(markers)@.len(),
            i <= n,
            markers@.len() == n,
            forall|j: int| 0 <= j < i ==> #[trigger] markers@[j] == place_one(views@, old(markers)@[j]),
            forall|j: int| i <= j < n ==> #[trigger] markers@[j] == old(markers)@[j],
        decreases n - i,
    {
        let r = markers[i];
        if r.placement.is_none() {
            match find_view(views, r.parent) {
                Some(v) => {
                    let t = get_translation_from_grid_pos_3d(&r.marker.pos, &v.view.node_size);
                    markers.set(i, MarkerRecord { placement: Some(t), ..r });
                },
                None => {},
            }
        }
        i = i + 1;
    }
    assert(markers@ =~= placement_pass(views@, old(markers)@));
}

/// A pass never changes which markers there are, nor their entities and parents.
proof fn lemma_passes_shape(views: Seq<GridViewRecord>, markers: Seq<MarkerRecord>, n: nat)
    ensures
        placement_passes(views, markers, n).len() == markers.len(),
    decreases n,
{
    if n > 0 {
        lemma_passes_shape(views, markers, (n - 1) as nat);
    }
}

/// An unplaced marker whose grid has no view configuration stays as it is,
/// unplaced, through any number of passes.
pub proof fn lemma_unplaced_waits(views: Seq<GridViewRecord>, markers: Seq<MarkerRecord>, i: int, n: nat)
    requires
        0 <= i < markers.len(),
        markers[i].placement is None,
        view_of(views, markers[i].parent) is None,
    ensures
        placement_passes(views, markers, n).len() == markers.len(),
        placement_passes(views, markers, n)[i] == markers[i],
    decreases n,
{
    lemma_passes_shape(views, markers, n);
    if n > 0 {
        lemma_unplaced_waits(views, markers, i, (n - 1) as nat);
    }
}

/// Once its grid has a view configuration, an unplaced marker is placed by the
/// next pass, at the centre of its node; a placed marker stays as it is.
pub proof fn lemma_placed_on_next_pass(views: Seq<GridViewRecord>, markers: Seq<MarkerRecord>, i: int)
    requires
        0 <= i < markers.len(),
    ensures
        markers[i].placement is None && view_of(views, markers[i].parent) is Some ==>
            placement_pass(views, markers)[i].placement == Some(
                spec_center_3d(
                    markers[i].marker.pos.x as int,
                    markers[i].marker.pos.y as int,
                    markers[i].marker.pos.z as int,
                    view_of(views, markers[i].parent)->0.view.node_size,
                ),
            ),
        markers[i].placement is Some ==> placement_pass(views, markers)[i] == markers[i],
{
}

/// A marker spawned on a grid that has no view configuration stays unplaced
/// through any number of passes; once a view configuration is added to its
/// grid, the next pass places it at the centre of its node in that view's node size.
pub proof fn lemma_placed_after_view_added(
    without: Seq<GridViewRecord>,
    with: Seq<GridViewRecord>,
    markers: Seq<MarkerRecord>,
    i: int,
    n: nat,
)
    requires
        0 <= i < markers.len(),
        markers[i].placement is None,
        view_of(without, markers[i].parent) is None,
        view_of(with, markers[i].parent) is Some,
    ensures
        placement_passes(without, markers, n)[i].placement is None,
        placement_pass(with, placement_passes(without, markers, n))[i].placement == Some(
            spec_center_3d(
                markers[i].marker.pos.x as int,
                markers[i].marker.pos.y as int,
                markers[i].marker.pos.z as int,
                view_of(with, markers[i].parent)->0.view.node_size,
            ),
        ),
{
    lemma_unplaced_waits(without, markers, i, n);
    lemma_placed_on_next_pass(with, placement_passes(without, markers, n), i);
}

// ---------------------------------------------------------------- drawing

/// Size of the box drawn for a marker on a grid of node size `node`.
pub open spec fn spec_box_size(node: NodeSize) -> MarkerBoxSize {
    MarkerBoxSize {
        x: (node.x * MARKER_SCALE_TWENTIETHS) as u64,
        y: (node.y * MARKER_SCALE_TWENTIETHS) as u64,
        z: (node.z * MARKER_SCALE_TWENTIETHS) as u64,
    }
}

/// Size of the rectangle drawn for a marker on a grid of node size `node`.
pub open spec fn spec_rect_size(node: NodeSize) -> MarkerRectSize {
    MarkerRectSize {
        x: (node.x * MARKER_SCALE_TWENTIETHS) as u64,
        y: (node.y * MARKER_SCALE_TWENTIETHS) as u64,
    }
}

/// The box drawn for marker `r`, if any: only a placed marker whose grid has a
/// 3D view that displays markers is drawn.
pub open spec fn box_of(views: Seq<GridViewRecord>, r: MarkerRecord) -> Option<MarkerBox> {
    match view_of(views, r.parent) {
        Some(v) => if r.placement is Some && v.view_3d && v.view.display_markers {
            Some(MarkerBox { entity: r.entity, color: r.marker.color, size: spec_box_size(v.view.node_size) })
        } else {
            None
        },
        None => None,
    }
}

/// The rectangle drawn for marker `r`, if any: only a placed marker whose grid
/// has a 2D view that displays markers is drawn.
pub open spec fn rect_of(views: Seq<GridViewRecord>, r: MarkerRecord) -> Option<MarkerRect> {
    match view_of(views, r.parent) {
        Some(v) => if r.placement is Some && v.view_2d && v.view.display_markers {
            Some(MarkerRect { entity: r.entity, color: r.marker.color, size: spec_rect_size(v.view.node_size) })
        } else {
            None
        },
        None => None,
    }
}

fn scaled_side(s: u32) -> (r: u64)
    ensures
        r == s * MARKER_SCALE_TWENTIETHS,
{
    (s as u64) * MARKER_SCALE_TWENTIETHS
}

/// The boxes to draw this frame, one per placed marker whose grid has a 3D view
/// that displays markers, in the order of `markers`.
pub fn draw_debug_markers_3d(views: &Vec<GridViewRecord>, markers: &Vec<MarkerRecord>) -> (r: Vec<MarkerBox>)
    ensures
        r@ == markers@.filter_map(|m: MarkerRecord| box_of(views@, m)),
{
    let ghost f = |m: MarkerRecord| box_of(views@, m);
    let mut r: Vec<MarkerBox> = Vec::new();
    let mut i: usize = 0;
    while i < markers.len()
        invariant
            i <= markers@.len(),
            f == (|m: MarkerRecord| box_of(views@, m)),
            r@ == markers@.take(i as int).filter_map(f),
        decreases markers@.len() - i,
    {
        let m = markers[i];
        match find_view(views, m.parent) {
            Some(v) => {
                if m.placement.is_some() && v.view_3d && v.view.display_markers {
                    let n = v.view.node_size;
                    let size = MarkerBoxSize { x: scaled_side(n.x), y: scaled_side(n.y), z: scaled_side(n.z) };
                    r.push(MarkerBox { entity: m.entity, color: m.marker.color, size });
                }
            },
            None => {},
        }
        proof {
            let t = markers@.take(i + 1);
            assert(t.drop_last() =~= markers@.take(i as int));
            assert(t.last() == m);
            assert(t.filter_map(f) =~= r@);
        }
        i = i + 1;
    }
    assert(markers@.take(markers@.len() as int) =~= markers@);
    r
}

/// The rectangles to draw this frame, one per placed marker whose grid has a 2D
/// view that displays markers, in the order of `markers`.
pub fn draw_debug_markers_2d(views: &Vec<GridViewRecord>, markers: &Vec<MarkerRecord>) -> (r: Vec<MarkerRect>)
    ensures
        r@ == markers@.filter_map(|m: MarkerRecord| rect_of(views@, m)),
{
    let ghost f = |m: MarkerRecord| rect_of(views@, m);
    let mut r: Vec<MarkerRect> = Vec::new();
    let mut i: usize = 0;
    while i < markers.len()
        invariant
            i <= markers@.len(),
            f == (|m: MarkerRecord| rect_of(views@, m)),
            r@ == markers@.take(i as int).filter_map(f),
        decreases markers@.len() - i,
    {
        let m = markers[i];
        match find_view(views, m.parent) {
            Some(v) => {
                if m.placement.is_some() && v.view_2d && v.view.display_markers {
                    let n = v.view.node_size;
                    let size = MarkerRectSize { x: scaled_side(n.x), y: scaled_side(n.y) };
                    r.push(MarkerRect { entity: m.entity, color: m.marker.color, size });
                }
            },
            None => {},
        }
        proof {
            let t = markers@.take(i + 1);
            assert(t.drop_last() =~= markers@.take(i as int));
            assert(t.last() == m);
            assert(t.filter_map(f) =~= r@);
        }
        i = i + 1;
    }
    assert(markers@.take(markers@.len() as int) =~= markers@);
    r
}

} // verus!
