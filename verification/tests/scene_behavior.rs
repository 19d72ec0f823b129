use radiant_core::Point;
use radiant_core::RadiantPathNode;
use radiant_core::RadiantScene;
use radiant_core::ScreenDescriptor;

fn scene() -> RadiantScene {
    RadiantScene::new(ScreenDescriptor::new([800, 600], 1))
}

#[test]
fn scene_assigns_sequential_ids() {
    let mut s = scene();
    let a = s.add_node(Point { x: 0, y: 0 }).unwrap();
    let b = s.add_node(Point { x: 10, y: 10 }).unwrap();
    assert_eq!(a, 0);
    assert_eq!(b, 1);
    assert_eq!(s.node_count(), 2);
    assert_eq!(s.get_node(0).get_id(), 0);
    assert_eq!(s.get_node(1).get_id(), 1);
    // A pre-built node is re-stamped by the scene on attach.
    let node = RadiantPathNode::new(999, Point { x: 5, y: 5 });
    let c = s.attach(node).unwrap();
    assert_eq!(c, 2);
    assert_eq!(s.get_node(2).get_id(), 2);
}

#[test]
fn render_collects_one_primitive_per_node_in_paint_order() {
    let mut s = scene();
    s.add_node(Point { x: 0, y: 0 }).unwrap();
    s.add_node(Point { x: 50, y: 50 }).unwrap();
    let prims = s.render();
    assert_eq!(prims.len(), 2);
    assert_eq!(prims[0].points[0], Point { x: 0, y: 0 });
    assert_eq!(prims[1].points[0], Point { x: 50, y: 50 });
    // Rendering again serves every node from cache.
    let again = s.render();
    assert_eq!(prims, again);
    assert_eq!(s.get_node(0).tessellation_count(), 1);
    assert_eq!(s.get_node(1).tessellation_count(), 1);
}

#[test]
fn topmost_overlapping_node_wins_the_hit_test() {
    let mut s = scene();
    let a = s.add_node(Point { x: 10, y: 10 }).unwrap();
    let b = s.add_node(Point { x: 10, y: 10 }).unwrap();
    s.set_node_scale(0, Point { x: 100, y: 100 });
    s.set_node_scale(1, Point { x: 100, y: 100 });
    // Both nodes cover the shared centroid; the one added later is drawn
    // on top and must win.
    let p = Point { x: 10, y: 260 };
    assert_eq!(s.hit_test(p), Some(b));
    assert_ne!(a, b);
    // A point outside every node hits the background.
    assert_eq!(s.hit_test(Point { x: 5000, y: 5000 }), None);
}

#[test]
fn hit_test_respects_geometry_not_insertion_alone() {
    let mut s = scene();
    let a = s.add_node(Point { x: 0, y: 0 }).unwrap();
    let _b = s.add_node(Point { x: 100000, y: 100000 }).unwrap();
    // The top node is far away, so the bottom node is hit.
    assert_eq!(s.hit_test(Point { x: 0, y: 250 }), Some(a));
}

#[test]
fn mouse_down_moves_the_selection() {
    let mut s = scene();
    let _a = s.add_node(Point { x: 0, y: 0 }).unwrap();
    let _b = s.add_node(Point { x: 0, y: 0 }).unwrap();
    let p = Point { x: 0, y: 250 };
    // First press selects the topmost node and asks for a redraw.
    assert!(s.on_mouse_down(p));
    assert!(!s.get_node(0).is_selected());
    assert!(s.get_node(1).is_selected());
    // Pressing the same spot again changes nothing.
    assert!(!s.on_mouse_down(p));
    // Pressing the background clears the selection.
    assert!(s.on_mouse_down(Point { x: 9000, y: 9000 }));
    assert!(!s.get_node(0).is_selected());
    assert!(!s.get_node(1).is_selected());
    // Move and up are no-ops in the core.
    assert!(!s.on_mouse_move(p));
    assert!(!s.on_mouse_up(p));
}

#[test]
fn selection_does_not_retessellate() {
    let mut s = scene();
    s.add_node(Point { x: 0, y: 0 }).unwrap();
    s.render();
    assert_eq!(s.get_node(0).tessellation_count(), 1);
    s.set_node_selected(0, true);
    s.render();
    assert_eq!(s.get_node(0).tessellation_count(), 1);
    assert!(s.get_node(0).is_selected());
}

#[test]
fn resize_retessellates_only_on_pixel_ratio_change() {
    let mut s = scene();
    s.add_node(Point { x: 0, y: 0 }).unwrap();
    s.render();
    assert_eq!(s.get_node(0).tessellation_count(), 1);
    // A pure size change keeps every cache.
    s.resize(ScreenDescriptor::new([1024, 768], 1));
    assert!(!s.get_node(0).is_dirty());
    s.render();
    assert_eq!(s.get_node(0).tessellation_count(), 1);
    // A pixel-ratio change invalidates and the next render recomputes.
    s.resize(ScreenDescriptor::new([2048, 1536], 2));
    assert!(s.get_node(0).is_dirty());
    let prims = s.render();
    assert_eq!(s.get_node(0).tessellation_count(), 2);
    // The recomputed geometry reflects the doubled offsets.
    assert_eq!(prims[0].points[3], Point { x: -400, y: 400 });
    assert_eq!(s.screen_descriptor().pixels_per_point, 2);
}

#[test]
fn removing_a_node_detaches_it_and_keeps_order() {
    let mut s = scene();
    let a = s.add_node(Point { x: 0, y: 0 }).unwrap();
    let b = s.add_node(Point { x: 10, y: 10 }).unwrap();
    let removed = s.remove_node(0);
    assert_eq!(removed.get_id(), a);
    assert!(removed.is_dirty());
    assert_eq!(s.node_count(), 1);
    assert_eq!(s.get_node(0).get_id(), b);
    // A freed identity is never reused.
    let c = s.add_node(Point { x: 20, y: 20 }).unwrap();
    assert_eq!(c, 2);
}

#[test]
fn moving_a_node_through_the_scene_dirties_it() {
    let mut s = scene();
    s.add_node(Point { x: 0, y: 0 }).unwrap();
    s.render();
    s.set_node_position(0, Point { x: 40, y: 40 });
    assert!(s.get_node(0).is_dirty());
    let prims = s.render();
    assert_eq!(prims[0].points[0], Point { x: 40, y: 40 });
    assert_eq!(s.get_node(0).tessellation_count(), 2);
}
