use platformer_core::extensions::RectExtensions;
use platformer_core::geometry::{Rect, Vec2, UNIT};
use platformer_core::world::{MapShape, RawObjectLayer, World};

fn rect(x: i64, y: i64, w: i64, h: i64) -> Rect {
    Rect::new(x, y, w, h)
}

fn world_with(shapes: Vec<MapShape>) -> World {
    let layers = vec![RawObjectLayer { name: "Unmovable".to_string(), shapes }];
    World::new(layers, 100 * UNIT, 100 * UNIT)
}

#[test]
fn overlaps_is_symmetric_on_samples() {
    let pairs = [
        (rect(0, 0, 100, 100), rect(50, 50, 100, 100)),
        (rect(0, 0, 100, 100), rect(100, 0, 100, 100)),
        (rect(0, 0, 100, 100), rect(500, 500, 10, 10)),
        (rect(-50, -50, 200, 200), rect(0, 0, 10, 10)),
        (rect(0, 0, 0, 0), rect(0, 0, 0, 0)),
    ];
    for (a, b) in pairs.iter() {
        assert_eq!(a.overlaps(b), b.overlaps(a));
    }
}

#[test]
fn overlaps_is_half_open() {
    let a = rect(0, 0, 100, 100);
    // Touching along an edge is not an overlap.
    assert!(!a.overlaps(&rect(100, 0, 100, 100)));
    assert!(!a.overlaps(&rect(0, 100, 100, 100)));
    assert!(!a.overlaps(&rect(-100, 0, 100, 100)));
    // One subunit of intrusion is.
    assert!(a.overlaps(&rect(99, 0, 100, 100)));
    assert!(a.overlaps(&rect(0, 99, 100, 100)));
    // Zero-extent rectangles never overlap anything.
    assert!(!a.overlaps(&rect(50, 50, 0, 0)));
}

#[test]
fn rect_accessors_and_moves() {
    let mut r = rect(200, 300, 1000, 500);
    assert_eq!(r.left(), 200);
    assert_eq!(r.right(), 1200);
    assert_eq!(r.top(), 300);
    assert_eq!(r.bottom(), 800);
    assert_eq!(r.point(), Vec2::new(200, 300));
    assert_eq!(r.center(), Vec2::new(700, 550));
    r.move_to(Vec2::new(0, 0));
    assert_eq!(r, rect(0, 0, 1000, 500));
    r.move_center(Vec2::new(2000, 2000));
    assert_eq!(r, rect(1500, 1750, 1000, 500));
}

#[test]
fn world_boundary_and_edges() {
    let w = world_with(vec![]);
    assert_eq!(w.rect, rect(0, 0, 10000, 10000));
    let unmovable = &w.object_rects[w.unmovable_index];
    assert_eq!(unmovable.name, "Unmovable");
    assert_eq!(
        unmovable.rects,
        vec![
            rect(0, 0, 100, 10000),
            rect(0, 0, 10000, 100),
            rect(10000, 0, 100, 10000),
            rect(0, 10000, 10000, 100),
        ]
    );
}

#[test]
fn non_rectangular_shapes_are_skipped() {
    let w = world_with(vec![
        MapShape::Other,
        MapShape::Rectangle { x: 2000, y: 2000, width: 500, height: 500 },
        MapShape::Other,
    ]);
    let unmovable = &w.object_rects[w.unmovable_index];
    // The one authored rectangle, then the four synthetic edges.
    assert_eq!(unmovable.rects.len(), 5);
    assert_eq!(unmovable.rects[0], rect(2000, 2000, 500, 500));
}

#[test]
fn layer_order_and_names_are_kept() {
    let layers = vec![
        RawObjectLayer {
            name: "Background".to_string(),
            shapes: vec![MapShape::Rectangle { x: 100, y: 100, width: 300, height: 300 }],
        },
        RawObjectLayer { name: "Unmovable".to_string(), shapes: vec![] },
    ];
    let w = World::new(layers, 10000, 10000);
    assert_eq!(w.object_rects.len(), 2);
    assert_eq!(w.object_rects[0].name, "Background");
    assert_eq!(w.object_rects[0].rects, vec![rect(100, 100, 300, 300)]);
    assert_eq!(w.unmovable_index, 1);
    assert_eq!(w.object_rects[1].rects.len(), 4);
}

#[test]
fn collision_with_authored_obstacle() {
    let w = world_with(vec![MapShape::Rectangle { x: 2000, y: 2000, width: 500, height: 500 }]);
    let actor = rect(1500, 2000, 400, 400);
    // At rest there is a gap of one subunit times one hundred.
    assert!(!w.collision(&actor, Vec2::new(0, 0)));
    // Moving right into the obstacle hits it.
    assert!(w.collision(&actor, Vec2::new(200, 0)));
    // Touching it exactly does not (half-open spans).
    assert!(!w.collision(&actor, Vec2::new(100, 0)));
}

#[test]
fn boundary_edges_block_leaving() {
    let w = world_with(vec![]);
    let actor = rect(5000, 9500, 1000, 500);
    // Resting flush on the floor does not collide.
    assert!(!w.collision(&actor, Vec2::new(0, 0)));
    // Any step past the bottom does.
    assert!(w.collision(&actor, Vec2::new(0, 300)));
    // Horizontal room is free.
    assert!(!w.collision(&actor, Vec2::new(-300, 0)));
    // Stepping into the left edge region is blocked.
    let near_left = rect(150, 5000, 1000, 500);
    assert!(w.collision(&near_left, Vec2::new(-100, 0)));
    // And into the right edge as well.
    let near_right = rect(8900, 5000, 1000, 500);
    assert!(w.collision(&near_right, Vec2::new(200, 0)));
}

#[test]
fn world_update_changes_nothing() {
    let mut w = world_with(vec![MapShape::Rectangle { x: 2000, y: 2000, width: 500, height: 500 }]);
    let boundary = w.rect;
    let rects_before = w.object_rects[w.unmovable_index].rects.clone();
    w.update();
    assert_eq!(w.rect, boundary);
    assert_eq!(w.object_rects[w.unmovable_index].rects, rects_before);
}
