use radiant_core::Component;
use radiant_core::ComponentKind;
use radiant_core::Point;
use radiant_core::RadiantError;
use radiant_core::RadiantPathNode;
use radiant_core::Rect;
use radiant_core::ScreenDescriptor;
use radiant_core::SelectionComponent;
use radiant_core::color::decode_color;
use radiant_core::geometry::covers_point;

fn screen() -> ScreenDescriptor {
    ScreenDescriptor::new([800, 600], 1)
}

#[test]
fn tessellate_is_idempotent() {
    let mut node = RadiantPathNode::new(7, Point { x: 10, y: 10 });
    node.set_scale(Point { x: 100, y: 100 });
    let s = screen();
    let first = node.tessellate(false, &s);
    let first_pick = node.tessellate(true, &s);
    let rect1 = node.get_bounding_rect();
    assert_eq!(node.tessellation_count(), 1);
    let second = node.tessellate(false, &s);
    let second_pick = node.tessellate(true, &s);
    let rect2 = node.get_bounding_rect();
    // Bit-identical results and no recomputation the second time around.
    assert_eq!(first, second);
    assert_eq!(first_pick, second_pick);
    assert_eq!(rect1, rect2);
    assert_eq!(node.tessellation_count(), 1);
}

#[test]
fn transform_mutation_triggers_recompute() {
    let mut node = RadiantPathNode::new(3, Point { x: 0, y: 0 });
    let s = screen();
    let before = node.tessellate(false, &s);
    assert_eq!(node.tessellation_count(), 1);
    node.set_position(Point { x: 25, y: -4 });
    assert!(node.is_dirty());
    let after = node.tessellate(false, &s);
    assert_eq!(node.tessellation_count(), 2);
    assert_ne!(before, after);
    // Scale changes recompute too.
    node.set_scale(Point { x: 9, y: 9 });
    assert!(node.is_dirty());
    let rescaled = node.tessellate(false, &s);
    assert_eq!(node.tessellation_count(), 3);
    assert_ne!(after, rescaled);
}

#[test]
fn selection_leaves_picking_untouched() {
    let mut node = RadiantPathNode::new(11, Point { x: 5, y: 5 });
    let s = screen();
    let pick_before = node.tessellate(true, &s);
    node.set_selected(true);
    assert!(!node.is_dirty());
    let pick_after = node.tessellate(true, &s);
    assert_eq!(pick_before, pick_after);
    assert_eq!(node.tessellation_count(), 1);
    assert_eq!(
        decode_color(pick_before[0].color),
        decode_color(pick_after[0].color)
    );
    node.set_selected(false);
    assert!(!node.is_dirty());
    assert_eq!(node.tessellate(true, &s), pick_before);
}

#[test]
fn draw_and_pick_share_the_point_list() {
    let mut node = RadiantPathNode::new(42, Point { x: -30, y: 17 });
    node.set_scale(Point { x: 12, y: 34 });
    let s = screen();
    let draw = node.tessellate(false, &s);
    let pick = node.tessellate(true, &s);
    assert_eq!(draw.len(), 1);
    assert_eq!(pick.len(), 1);
    assert_eq!(draw[0].points, pick[0].points);
    assert_ne!(draw[0].color, pick[0].color);
    assert_eq!(decode_color(pick[0].color), Some(42));
}

#[test]
fn offset_polygon_scenario() {
    // Node id 5 at (10,10), scale (100,100), one pixel per point. The path
    // rule generates (x,y), (x+sx,y+sy+200), (x+sx,y+sy+400), (x-200,y+200),
    // so the tight bounds are min=(10-200,10), max=(10+100,10+100+400).
    let mut node = RadiantPathNode::new(5, Point { x: 10, y: 10 });
    node.set_scale(Point { x: 100, y: 100 });
    let s = screen();
    node.tessellate(false, &s);
    let rect = node.get_bounding_rect();
    assert_eq!(
        rect,
        Rect {
            min_x: -190,
            min_y: 10,
            max_x: 110,
            max_y: 510
        }
    );
    // The decoded pick color at the shape's centroid is the node's id.
    let pick = node.tessellate(true, &s);
    let centroid = Point { x: 10, y: 260 };
    assert!(covers_point(&pick[0].points, centroid));
    assert_eq!(decode_color(pick[0].color), Some(5));
    // Moving to (50,50) marks the node stale and shifts the bounds by (40,40).
    node.set_position(Point { x: 50, y: 50 });
    assert!(node.is_dirty());
    node.tessellate(false, &s);
    let moved = node.get_bounding_rect();
    assert_eq!(
        moved,
        Rect {
            min_x: -150,
            min_y: 50,
            max_x: 150,
            max_y: 550
        }
    );
}

#[test]
fn zero_scale_still_tessellates() {
    let mut node = RadiantPathNode::new(1, Point { x: 10, y: 10 });
    let s = screen();
    let prims = node.tessellate(false, &s);
    assert_eq!(prims.len(), 1);
    assert_eq!(prims[0].points.len(), 4);
    let rect = node.get_bounding_rect();
    assert_eq!(
        rect,
        Rect {
            min_x: -190,
            min_y: 10,
            max_x: 10,
            max_y: 410
        }
    );
}

#[test]
fn pixel_ratio_scales_the_offsets() {
    let mut node = RadiantPathNode::new(0, Point { x: 0, y: 0 });
    let s2 = ScreenDescriptor::new([800, 600], 2);
    node.tessellate(false, &s2);
    let rect = node.get_bounding_rect();
    assert_eq!(
        rect,
        Rect {
            min_x: -400,
            min_y: 0,
            max_x: 0,
            max_y: 800
        }
    );
}

#[test]
fn oversized_id_is_rejected_at_creation() {
    let r = RadiantPathNode::try_new(16777215, Point { x: 0, y: 0 });
    assert_eq!(r.err(), Some(RadiantError::IdentityEncodingOverflow));
    let ok = RadiantPathNode::try_new(16777214, Point { x: 0, y: 0 });
    assert_eq!(ok.map(|n| n.get_id()).ok(), Some(16777214));
}

#[test]
fn detach_clears_the_cache() {
    let mut node = RadiantPathNode::new(2, Point { x: 1, y: 2 });
    let s = screen();
    node.attach_to_scene(&s);
    assert!(!node.is_dirty());
    node.detach();
    assert!(node.is_dirty());
    // A re-attach recomputes.
    node.attach_to_scene(&s);
    assert!(!node.is_dirty());
    assert_eq!(node.tessellation_count(), 2);
}

#[test]
fn reidentifying_invalidates_the_pick_cache() {
    let mut node = RadiantPathNode::new(3, Point { x: 0, y: 0 });
    let s = screen();
    let pick = node.tessellate(true, &s);
    assert_eq!(decode_color(pick[0].color), Some(3));
    node.set_id(9);
    assert!(node.is_dirty());
    let pick = node.tessellate(true, &s);
    assert_eq!(decode_color(pick[0].color), Some(9));
}

#[test]
fn component_lookup_by_kind() {
    let mut node = RadiantPathNode::new(4, Point { x: 6, y: 7 });
    match node.get_component(ComponentKind::Transform) {
        Some(Component::Transform(t)) => {
            assert_eq!(t.position, Point { x: 6, y: 7 });
            assert_eq!(t.scale, Point { x: 0, y: 0 });
        }
        other => panic!("expected the transform component, got {:?}", other),
    }
    match node.get_component(ComponentKind::Selection) {
        Some(Component::Selection(sel)) => assert!(!sel.selected),
        other => panic!("expected the selection component, got {:?}", other),
    }
    // Writing the selection through the capability interface does not
    // invalidate geometry; writing the transform does.
    let s = screen();
    node.tessellate(false, &s);
    assert!(node.set_component(Component::Selection(SelectionComponent { selected: true })));
    assert!(!node.is_dirty());
    assert!(node.is_selected());
    let mut transform = match node.get_component(ComponentKind::Transform) {
        Some(Component::Transform(t)) => t,
        _ => unreachable!(),
    };
    transform.set_xy(Point { x: 100, y: 100 });
    assert!(node.set_component(Component::Transform(transform)));
    assert!(node.is_dirty());
}
