use bevy_ghx_grid::debug_plugin::markers::{
    despawn_debug_markers, draw_debug_markers_2d, draw_debug_markers_3d, find_view,
    insert_transform_on_new_markers, spawn_marker, EntityId, GridMarker, GridViewRecord,
    MarkerBoxSize, MarkerDespawnEvent, MarkerRecord, MarkerRectSize, MARKER_SCALE_TWENTIETHS,
};
use bevy_ghx_grid::debug_plugin::view::{draw_debug_grids_2d, draw_debug_grids_3d, DebugGridView};
use bevy_ghx_grid::debug_plugin::{
    get_translation_from_grid_coords_2d, get_translation_from_grid_coords_3d,
    get_translation_from_grid_pos_2d, get_translation_from_grid_pos_3d,
    toggle_debug_grids_visibilities, toggle_grid_markers_visibilities, DebugGridView2dBundle,
    DebugGridView3dBundle,
};
use bevy_ghx_grid::geometry::{
    GizmoColor, GridSize, NodeSize, NodeSize2, Point2, Point3, Translation2, Translation3,
};
use bevy_ghx_grid::outline::{grid_outline_2d, grid_outline_3d, Segment2};
use ghx_grid::cartesian::coordinates::CartesianPosition;

fn red() -> GizmoColor {
    GizmoColor { r: 255, g: 0, b: 0, a: 255 }
}

fn id(bits: u64) -> EntityId {
    EntityId { bits }
}

fn view_record(grid: u64, view: DebugGridView, view_3d: bool, view_2d: bool) -> GridViewRecord {
    GridViewRecord { grid: id(grid), view, view_3d, view_2d }
}

fn markers_on(parents: &[(u64, u64)]) -> Vec<MarkerRecord> {
    let mut markers = Vec::new();
    for (entity, parent) in parents {
        spawn_marker(&mut markers, id(*parent), id(*entity), red(), CartesianPosition::new(0, 0, 0));
    }
    markers
}

fn entities(markers: &[MarkerRecord]) -> Vec<u64> {
    markers.iter().map(|m| m.entity.bits).collect()
}

#[test]
fn center_of_node_3d() {
    let t = get_translation_from_grid_coords_3d(1, 2, 3, &NodeSize { x: 2, y: 3, z: 4 });
    // (1.5 * 2, 2.5 * 3, 3.5 * 4) in half units
    assert_eq!(t, Translation3 { x: 6, y: 15, z: 28 });
}

#[test]
fn center_of_origin_unit_node() {
    let t = get_translation_from_grid_coords_3d(0, 0, 0, &NodeSize { x: 1, y: 1, z: 1 });
    assert_eq!(t, Translation3 { x: 1, y: 1, z: 1 });
}

#[test]
fn center_of_largest_coordinates() {
    let t = get_translation_from_grid_coords_3d(u32::MAX, 0, 1, &NodeSize { x: u32::MAX, y: 0, z: 7 });
    let expected_x = (2 * (u32::MAX as u128) + 1) * (u32::MAX as u128);
    assert_eq!(t, Translation3 { x: expected_x, y: 0, z: 21 });
}

#[test]
fn center_from_position_matches_coordinates() {
    let node = NodeSize { x: 5, y: 1, z: 2 };
    let from_pos = get_translation_from_grid_pos_3d(&CartesianPosition::new(4, 7, 9), &node);
    assert_eq!(from_pos, get_translation_from_grid_coords_3d(4, 7, 9, &node));
    assert_eq!(from_pos, Translation3 { x: 45, y: 15, z: 38 });
}

#[test]
fn center_of_node_2d() {
    let node = NodeSize2 { x: 3, y: 10 };
    assert_eq!(get_translation_from_grid_coords_2d(2, 0, &node), Translation2 { x: 15, y: 10 });
    let from_pos = get_translation_from_grid_pos_2d(&CartesianPosition::new(2, 0, 99), &node);
    assert_eq!(from_pos, Translation2 { x: 15, y: 10 });
}

#[test]
fn outline_3d_strip_count_and_loops() {
    let strips = grid_outline_3d(&GridSize { x: 2, y: 1, z: 1 }, &NodeSize { x: 1, y: 1, z: 1 });
    assert_eq!(strips.len(), 7);
    for s in &strips {
        assert_eq!(s.points.len(), 5);
        assert_eq!(s.points[0], s.points[4]);
    }
}

#[test]
fn outline_3d_exact_points() {
    let strips = grid_outline_3d(&GridSize { x: 2, y: 1, z: 1 }, &NodeSize { x: 2, y: 3, z: 4 });
    let p = |x: u64, y: u64, z: u64| Point3 { x, y, z };
    // second x plane
    assert_eq!(strips[1].points, vec![p(2, 0, 0), p(2, 3, 0), p(2, 3, 4), p(2, 0, 4), p(2, 0, 0)]);
    // last y plane
    assert_eq!(strips[4].points, vec![p(0, 3, 0), p(4, 3, 0), p(4, 3, 4), p(0, 3, 4), p(0, 3, 0)]);
    // first z plane
    assert_eq!(strips[5].points, vec![p(0, 0, 0), p(4, 0, 0), p(4, 3, 0), p(0, 3, 0), p(0, 0, 0)]);
}

#[test]
fn outline_3d_empty_grid() {
    let strips = grid_outline_3d(&GridSize { x: 0, y: 0, z: 0 }, &NodeSize { x: 1, y: 1, z: 1 });
    assert_eq!(strips.len(), 3);
    for s in &strips {
        assert!(s.points.iter().all(|q| *q == Point3 { x: 0, y: 0, z: 0 }));
    }
}

#[test]
fn outline_2d_empty_grid() {
    let segments = grid_outline_2d(&GridSize { x: 0, y: 0, z: 0 }, &NodeSize { x: 1, y: 1, z: 1 });
    let origin = Point2 { x: 0, y: 0 };
    assert_eq!(segments, vec![Segment2 { from: origin, to: origin }, Segment2 { from: origin, to: origin }]);
}

#[test]
fn outline_2d_rows_then_columns() {
    let segments = grid_outline_2d(&GridSize { x: 2, y: 1, z: 5 }, &NodeSize { x: 3, y: 2, z: 1 });
    let s = |fx: u64, fy: u64, tx: u64, ty: u64| Segment2 { from: Point2 { x: fx, y: fy }, to: Point2 { x: tx, y: ty } };
    assert_eq!(
        segments,
        vec![s(0, 0, 6, 0), s(0, 2, 6, 2), s(0, 0, 0, 2), s(3, 0, 3, 2), s(6, 0, 6, 2)]
    );
}

#[test]
fn hidden_grid_draws_nothing() {
    let size = GridSize { x: 3, y: 3, z: 3 };
    let mut view = DebugGridView::default();
    assert_eq!(draw_debug_grids_3d(&size, &view).len(), 12);
    assert_eq!(draw_debug_grids_2d(&size, &view).len(), 8);
    view.display_grid = false;
    assert!(draw_debug_grids_3d(&size, &view).is_empty());
    assert!(draw_debug_grids_2d(&size, &view).is_empty());
}

#[test]
fn default_view() {
    let v = DebugGridView::default();
    assert!(v.display_grid);
    assert!(v.display_markers);
    assert_eq!(v.color, GizmoColor { r: 255, g: 255, b: 255, a: 255 });
    assert_eq!(v.node_size, NodeSize { x: 1, y: 1, z: 1 });
    assert_eq!(DebugGridView3dBundle::default().view, v);
    assert_eq!(DebugGridView2dBundle::default().view, v);
    let n = DebugGridView::new(false, true, red(), NodeSize { x: 2, y: 2, z: 2 });
    assert!(!n.display_grid && n.display_markers);
    assert_eq!(n.color, red());
}

#[test]
fn toggle_grid_twice_restores() {
    let mut views = vec![DebugGridView::default(), DebugGridView::new(false, false, red(), NodeSize { x: 1, y: 2, z: 3 })];
    let before = views.clone();
    toggle_debug_grids_visibilities(&mut views);
    assert!(!views[0].display_grid);
    assert!(views[1].display_grid);
    assert_eq!(views[0].display_markers, before[0].display_markers);
    toggle_debug_grids_visibilities(&mut views);
    assert_eq!(views, before);
}

#[test]
fn toggle_markers_twice_restores() {
    let mut views = vec![DebugGridView::default()];
    let before = views.clone();
    toggle_grid_markers_visibilities(&mut views);
    assert!(!views[0].display_markers);
    assert!(views[0].display_grid);
    toggle_grid_markers_visibilities(&mut views);
    assert_eq!(views, before);
}

#[test]
fn spawn_marker_is_unplaced() {
    let mut markers = Vec::new();
    let e = spawn_marker(&mut markers, id(1), id(10), red(), CartesianPosition::new(1, 2, 3));
    assert_eq!(e, id(10));
    assert_eq!(markers.len(), 1);
    assert_eq!(markers[0].parent, id(1));
    assert_eq!(markers[0].marker.pos, CartesianPosition::new(1, 2, 3));
    assert_eq!(markers[0].marker.color, red());
    assert!(markers[0].placement.is_none());
    let m = GridMarker::new(red(), CartesianPosition::new(4, 5, 6));
    assert_eq!(m.pos.y, 5);
}

#[test]
fn despawn_by_grid_keeps_other_grids() {
    let mut markers = markers_on(&[(10, 1), (11, 2), (12, 1), (13, 3)]);
    let gone = despawn_debug_markers(&mut markers, &vec![MarkerDespawnEvent::Grid(id(1))]);
    assert_eq!(gone, vec![id(10), id(12)]);
    assert_eq!(entities(&markers), vec![11, 13]);
}

#[test]
fn despawn_by_grid_twice_same_as_once() {
    let mut once = markers_on(&[(10, 1), (11, 2), (12, 1)]);
    let mut twice = once.clone();
    despawn_debug_markers(&mut once, &vec![MarkerDespawnEvent::Grid(id(1))]);
    let gone = despawn_debug_markers(
        &mut twice,
        &vec![MarkerDespawnEvent::Grid(id(1)), MarkerDespawnEvent::Grid(id(1))],
    );
    assert_eq!(gone, vec![id(10), id(12)]);
    assert_eq!(entities(&once), entities(&twice));
    let again = despawn_debug_markers(&mut once, &vec![MarkerDespawnEvent::Grid(id(1))]);
    assert!(again.is_empty());
    assert_eq!(entities(&once), vec![11]);
}

#[test]
fn despawn_by_marker_and_missing_marker() {
    let mut markers = markers_on(&[(10, 1), (11, 1)]);
    let gone = despawn_debug_markers(
        &mut markers,
        &vec![MarkerDespawnEvent::Marker(id(11)), MarkerDespawnEvent::Marker(id(99))],
    );
    assert_eq!(gone, vec![id(11)]);
    assert_eq!(entities(&markers), vec![10]);
}

#[test]
fn despawn_all() {
    let mut markers = markers_on(&[(10, 1), (11, 2)]);
    let gone = despawn_debug_markers(&mut markers, &vec![MarkerDespawnEvent::All]);
    assert_eq!(gone, vec![id(10), id(11)]);
    assert!(markers.is_empty());
    let none = despawn_debug_markers(&mut markers, &vec![]);
    assert!(none.is_empty());
}

#[test]
fn marker_waits_for_view_then_is_placed() {
    let mut markers = Vec::new();
    spawn_marker(&mut markers, id(1), id(10), red(), CartesianPosition::new(1, 0, 2));
    let mut views = vec![view_record(2, DebugGridView::default(), true, false)];
    for _ in 0..3 {
        insert_transform_on_new_markers(&views, &mut markers);
        assert!(markers[0].placement.is_none());
    }
    views.push(view_record(1, DebugGridView::new(true, true, red(), NodeSize { x: 2, y: 2, z: 2 }), true, false));
    insert_transform_on_new_markers(&views, &mut markers);
    assert_eq!(markers[0].placement, Some(Translation3 { x: 6, y: 2, z: 10 }));
    // placed once: a later change of the view does not move it
    views[1].view.node_size = NodeSize { x: 9, y: 9, z: 9 };
    insert_transform_on_new_markers(&views, &mut markers);
    assert_eq!(markers[0].placement, Some(Translation3 { x: 6, y: 2, z: 10 }));
}

#[test]
fn find_view_takes_first_record() {
    let views = vec![
        view_record(1, DebugGridView::default(), true, false),
        view_record(2, DebugGridView::new(false, false, red(), NodeSize { x: 1, y: 1, z: 1 }), false, true),
    ];
    assert!(find_view(&views, id(2)).unwrap().view_2d);
    assert!(find_view(&views, id(3)).is_none());
}

#[test]
fn draw_markers_by_view_kind() {
    let mut markers = markers_on(&[(10, 1), (11, 2), (12, 1), (13, 4)]);
    let mut views = vec![
        view_record(1, DebugGridView::new(true, true, red(), NodeSize { x: 2, y: 3, z: 4 }), true, false),
        view_record(2, DebugGridView::default(), false, true),
        view_record(4, DebugGridView::new(true, false, red(), NodeSize { x: 1, y: 1, z: 1 }), true, true),
    ];
    // unplaced markers are not drawn
    assert!(draw_debug_markers_3d(&views, &markers).is_empty());
    insert_transform_on_new_markers(&views, &mut markers);
    let boxes = draw_debug_markers_3d(&views, &markers);
    assert_eq!(boxes.iter().map(|b| b.entity.bits).collect::<Vec<_>>(), vec![10, 12]);
    assert_eq!(MARKER_SCALE_TWENTIETHS, 21);
    assert_eq!(boxes[0].size, MarkerBoxSize { x: 42, y: 63, z: 84 });
    assert_eq!(boxes[0].color, red());
    let rects = draw_debug_markers_2d(&views, &markers);
    assert_eq!(rects.len(), 1);
    assert_eq!(rects[0].entity, id(11));
    assert_eq!(rects[0].size, MarkerRectSize { x: 21, y: 21 });
    views[0].view.display_markers = false;
    assert!(draw_debug_markers_3d(&views, &markers).is_empty());
}
