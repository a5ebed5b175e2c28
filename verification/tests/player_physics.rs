use platformer_core::geometry::{Rect, Vec2};
use platformer_core::player::{
    Direction, Player, ANIMATION_FALL, ANIMATION_IDLE, ANIMATION_LEFT, ANIMATION_RIGHT,
    MAX_FALL_TIME,
};
use platformer_core::world::{MapShape, RawObjectLayer, World};

fn world_with(shapes: Vec<MapShape>, width: i64, height: i64) -> World {
    let layers = vec![RawObjectLayer { name: "Unmovable".to_string(), shapes }];
    World::new(layers, width, height)
}

/// A 100 x 100 unit world with no authored obstacles, and a 10 x 5 unit
/// actor with default speed (2, 3) spawned at the given point.
fn player_at(spawn_x: i64, spawn_y: i64) -> Player {
    let world = world_with(vec![], 10000, 10000);
    Player::new(1500, 100, Vec2::new(spawn_x, spawn_y), Vec2::new(200, 300), world)
}

#[test]
fn new_player_fields() {
    let p = player_at(5000, 8000);
    assert_eq!(p.rect, Rect::new(5000, 8000, 1000, 500));
    assert_eq!(p.default_speed, Vec2::new(200, 300));
    assert_eq!(p.speed, Vec2::new(200, 300));
    assert!(!p.is_falling);
    assert_eq!(p.fall_time, 0);
    assert_eq!(p.animation_index, ANIMATION_IDLE);
    let history: Vec<i64> = p.positions_y.iter().copied().collect();
    assert_eq!(history, vec![8000, 0, 0]);
}

#[test]
fn free_fall_starts_and_grants_speed_boost() {
    let mut p = player_at(5000, 8000);
    // First frame: the history still matches the spawn height, so the
    // classifier sees rest; gravity then moves the box down by the
    // default vertical speed.
    p.update();
    assert!(!p.is_falling);
    assert_eq!(p.rect.y, 8300);
    assert_eq!(p.speed.x, 200);
    assert_eq!(p.fall_time, 0);
    assert_eq!(p.animation_index, ANIMATION_FALL);
    // Second frame: the height changed, so the player counts as falling,
    // gains the horizontal boost, and accelerates: the vertical speed is
    // the default 300 plus 1.5 times the fall duration of 2 subunits.
    p.update();
    assert!(p.is_falling);
    assert_eq!(p.speed.x, 300);
    assert_eq!(p.fall_time, 2);
    assert_eq!(p.speed.y, 303);
    assert_eq!(p.rect.y, 8300 + 303);
}

#[test]
fn resting_on_floor_blocks_and_resets_vertical_speed() {
    // The actor's bottom edge sits exactly on the floor line, so the
    // half-open spans do not yet collide at rest.
    let mut p = player_at(5000, 9500);
    p.update();
    // The attempted move down collides with the bottom edge: the position
    // is unchanged on both axes, and the ground check has reset the
    // vertical speed to the default.
    assert_eq!(p.rect, Rect::new(5000, 9500, 1000, 500));
    assert_eq!(p.speed.y, 300);
    assert!(!p.is_falling);
    assert_eq!(p.fall_time, 0);
}

#[test]
fn ground_contact_cancels_residual_vertical_speed() {
    let mut p = player_at(5000, 9500);
    // A residual downward speed left over from an earlier fall.
    p.speed.y = 700;
    p.update();
    // The ground check collides at (0, 700), so gravity integration starts
    // from the default vertical speed again instead of the residual one.
    assert_eq!(p.speed.y, 300);
    assert_eq!(p.rect.y, 9500);
}

#[test]
fn ascending_impulse_decays_with_fall_time() {
    let mut p = player_at(5000, 8000);
    p.update();
    assert_eq!(p.rect.y, 8300);
    // An upward speed while airborne: the next frame classifies the player
    // as falling (fall duration 2 subunits), and the ascending branch adds
    // 1.5 times that to the impulse.
    p.speed.y = -1000;
    p.update();
    assert!(p.is_falling);
    assert_eq!(p.fall_time, 2);
    assert_eq!(p.speed.y, -997);
    assert_eq!(p.rect.y, 8300 - 997);
}

#[test]
fn three_resting_updates_leave_classifier_at_rest() {
    let mut p = player_at(5000, 9500);
    p.update();
    p.update();
    p.update();
    assert!(!p.is_falling);
    assert_eq!(p.fall_time, 0);
    assert_eq!(p.speed.x, 200);
    assert_eq!(p.rect.y, 9500);
}

#[test]
fn jump_from_ground_sets_upward_impulse() {
    let mut p = player_at(5000, 9500);
    p.jump(1000);
    assert_eq!(p.speed.y, -1000);
    // With a fall duration of zero the impulse does not decay this frame:
    // the ground check at (0, -1000) finds nothing above, so the player
    // leaves the frame at -1000 and has risen by exactly that much.
    p.update();
    assert_eq!(p.speed.y, -1000);
    assert_eq!(p.rect.y, 8500);
}

#[test]
fn jump_does_not_validate_sign() {
    // A non-positive height is not rejected: the impulse is taken as given.
    let mut p = player_at(5000, 9500);
    p.jump(-500);
    assert_eq!(p.speed.y, 500);
    p.jump(0);
    assert_eq!(p.speed.y, 0);
}

#[test]
fn jump_while_falling_changes_nothing() {
    let mut p = player_at(5000, 8000);
    p.update();
    p.update();
    assert!(p.is_falling);
    let speed_before = p.speed;
    let rect_before = p.rect;
    let fall_time_before = p.fall_time;
    p.jump(1000);
    assert_eq!(p.speed, speed_before);
    assert_eq!(p.rect, rect_before);
    assert_eq!(p.fall_time, fall_time_before);
}

#[test]
fn blocked_horizontal_move_keeps_position() {
    let world = world_with(
        vec![MapShape::Rectangle { x: 6100, y: 9000, width: 200, height: 1000 }],
        10000,
        10000,
    );
    let mut p = Player::new(1500, 100, Vec2::new(5000, 9500), Vec2::new(200, 300), world);
    // Moving right would intrude into the obstacle: nothing changes,
    // not even the animation.
    p._move(Direction::Right);
    assert_eq!(p.rect, Rect::new(5000, 9500, 1000, 500));
    assert_eq!(p.animation_index, ANIMATION_IDLE);
    // Moving left is free.
    p._move(Direction::Left);
    assert_eq!(p.rect, Rect::new(4800, 9500, 1000, 500));
    assert_eq!(p.animation_index, ANIMATION_LEFT);
}

#[test]
fn directional_moves_select_animations() {
    let mut p = player_at(5000, 8000);
    p._move(Direction::Right);
    assert_eq!(p.rect.x, 5200);
    assert_eq!(p.animation_index, ANIMATION_RIGHT);
    p._move(Direction::Down);
    assert_eq!(p.rect.y, 8300);
    assert_eq!(p.animation_index, ANIMATION_FALL);
    p._move(Direction::Idle);
    assert_eq!(p.rect, Rect::new(5200, 8300, 1000, 500));
    assert_eq!(p.animation_index, ANIMATION_IDLE);
}

#[test]
fn fall_time_is_clamped() {
    // A very tall world: the actor falls freely for hundreds of frames.
    let world = world_with(vec![], 10000, 500_000);
    let mut p = Player::new(1500, 100, Vec2::new(5000, 100), Vec2::new(200, 300), world);
    for _ in 0..300 {
        p.update();
    }
    assert!(p.is_falling);
    assert_eq!(p.fall_time, MAX_FALL_TIME);
    // The next falling frame keeps the accumulator at the cap.
    p.update();
    assert_eq!(p.fall_time, MAX_FALL_TIME);
}

#[test]
fn frame_order_move_jump_update() {
    // One full frame as the driver issues it: idle baseline, a direction,
    // a jump, then the physics update.
    let mut p = player_at(5000, 9500);
    p._move(Direction::Idle);
    p._move(Direction::Right);
    p.jump(1000);
    p.update();
    // The horizontal move took effect, the jump set the impulse, and the
    // update lifted the actor: height history no longer matches next time.
    assert_eq!(p.rect.x, 5200);
    assert_eq!(p.rect.y, 8500);
    assert_eq!(p.speed.y, -1000);
    p.update();
    assert!(p.is_falling);
    assert_eq!(p.speed.x, 300);
}
