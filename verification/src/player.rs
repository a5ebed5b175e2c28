//! The player: per-frame horizontal movement, gravity integration, jump
//! impulses, and the short-history falling classifier that modulates speed
//! and animation selection.

use crate::geometry::{Rect, RectV, Vec2, Vec2V, COORD_LIMIT, UNIT};
use crate::world::{World, WorldV};
use std::collections::VecDeque;
use vstd::prelude::*;

verus! {

/// The fall-duration accumulator grows by this much (0.02 world units)
/// every frame spent falling.
pub const FALL_TIME_STEP: i64 = 2;

/// The fall-duration accumulator is clamped at 5 world units.
pub const MAX_FALL_TIME: i64 = 5 * UNIT;

/// Falling grants this horizontal speed bonus (one world unit).
pub const FALL_SPEED_BOOST: i64 = UNIT;

/// The collision box is this much (5 world units) narrower than the
/// sprite frame.
pub const PLAYER_WIDTH_TRIM: i64 = 5 * UNIT;

/// The collision box is this much (4 world units) taller than the
/// sprite frame.
pub const PLAYER_HEIGHT_PAD: i64 = 4 * UNIT;

/// Bound on configured speeds and jump impulses, small against
/// `COORD_LIMIT` so per-frame arithmetic stays exact.
pub const SPEED_LIMIT: i64 = 0x10_0000_0000;

pub const ANIMATION_IDLE: usize = 0;

pub const ANIMATION_RIGHT: usize = 1;

pub const ANIMATION_LEFT: usize = 2;

pub const ANIMATION_FALL: usize = 3;

/// A per-frame movement intent.
#[derive(Clone, Copy, PartialEq, Eq, Structural, Debug)]
pub enum Direction {
    Left,
    Right,
    Down,
    Idle,
}

/// Mathematical model of a [`Player`].
#[verifier::ext_equal]
pub ghost struct PlayerV {
    pub rect: RectV,
    pub default_speed: Vec2V,
    pub speed: Vec2V,
    pub is_falling: bool,
    pub world: WorldV,
    pub positions_y: Seq<int>,
    pub fall_time: int,
    pub animation_index: int,
}

/// The gravity acceleration term: 1.5 times the fall duration. The fall
/// duration is always an even count of subunits, so the term is exact.
pub open spec fn accel_term(fall_time: int) -> int {
    3 * fall_time / 2
}

/// The displacement a movement intent asks for at the current speed.
pub open spec fn displacement_of(p: PlayerV, direction: Direction) -> Vec2V {
    match direction {
        Direction::Left => Vec2V { x: -p.speed.x, y: 0 },
        Direction::Right => Vec2V { x: p.speed.x, y: 0 },
        Direction::Down => Vec2V { x: 0, y: p.speed.y },
        Direction::Idle => Vec2V { x: 0, y: 0 },
    }
}

pub open spec fn animation_of(direction: Direction) -> int {
    match direction {
        Direction::Left => ANIMATION_LEFT as int,
        Direction::Right => ANIMATION_RIGHT as int,
        Direction::Down => ANIMATION_FALL as int,
        Direction::Idle => ANIMATION_IDLE as int,
    }
}

/// A collision-checked move: the box takes the displacement and the
/// animation is selected only when no solid rectangle is in the way;
/// a blocked move changes nothing at all.
pub open spec fn attempt_move_spec(p: PlayerV, d: Vec2V, animation: int) -> PlayerV {
    if !p.world.collides(p.rect, d) {
        PlayerV { rect: p.rect.translated(d), animation_index: animation, ..p }
    } else {
        p
    }
}

/// One movement intent: `Idle` only selects the idle animation; the three
/// directions attempt a collision-checked move.
pub open spec fn move_spec(p: PlayerV, direction: Direction) -> PlayerV {
    match direction {
        Direction::Idle => PlayerV { animation_index: ANIMATION_IDLE as int, ..p },
        _ => attempt_move_spec(p, displacement_of(p, direction), animation_of(direction)),
    }
}

/// The falling classification: the player counts as falling exactly when
/// its vertical position differs from the most recent history entry.
/// Falling grants the horizontal speed bonus and grows the (clamped)
/// fall duration; rest restores the default speed and resets it.
pub open spec fn classify_spec(p: PlayerV) -> PlayerV {
    if p.positions_y[0] != p.rect.y {
        PlayerV {
            is_falling: true,
            speed: Vec2V { x: p.default_speed.x + FALL_SPEED_BOOST as int, y: p.speed.y },
            fall_time: if p.fall_time + FALL_TIME_STEP as int <= MAX_FALL_TIME as int {
                p.fall_time + FALL_TIME_STEP as int
            } else {
                MAX_FALL_TIME as int
            },
            ..p
        }
    } else {
        PlayerV {
            is_falling: false,
            speed: Vec2V { x: p.default_speed.x, y: p.speed.y },
            fall_time: 0,
            ..p
        }
    }
}

/// The history rotation: the current vertical position enters at the
/// front and the oldest entry leaves at the back.
pub open spec fn rotate_history_spec(p: PlayerV) -> PlayerV {
    PlayerV { positions_y: (seq![p.rect.y] + p.positions_y).drop_last(), ..p }
}

/// The vertical speed after the ground check: contact with solid ground
/// at the current vertical speed cancels any residual fall or jump speed
/// back to the configured default.
pub open spec fn ground_checked_speed_y(p: PlayerV) -> int {
    if p.world.collides(p.rect, Vec2V { x: 0, y: p.speed.y }) {
        p.default_speed.y
    } else {
        p.speed.y
    }
}

/// The vertical speed after gravity integration: an ascending jump
/// impulse decays by the acceleration term, a descending or resting
/// player accelerates downward from the default speed.
pub open spec fn gravity_speed_y(p: PlayerV) -> int {
    let vy = ground_checked_speed_y(p);
    if vy < 0 {
        vy + accel_term(p.fall_time)
    } else {
        p.default_speed.y + accel_term(p.fall_time)
    }
}

/// Gravity integration followed by the attempted vertical move.
pub open spec fn apply_gravity_spec(p: PlayerV) -> PlayerV {
    move_spec(
        PlayerV { speed: Vec2V { x: p.speed.x, y: gravity_speed_y(p) }, ..p },
        Direction::Down,
    )
}

/// One physics frame: falling classification, history rotation, then
/// gravity integration with its vertical move.
pub open spec fn update_spec(p: PlayerV) -> PlayerV {
    apply_gravity_spec(rotate_history_spec(classify_spec(p)))
}

/// A jump impulse: only a player that is not falling receives the upward
/// speed; a falling player is left exactly as it was.
pub open spec fn jump_spec(p: PlayerV, height: int) -> PlayerV {
    if !p.is_falling {
        PlayerV { speed: Vec2V { x: p.speed.x, y: -height }, ..p }
    } else {
        p
    }
}

impl PlayerV {
    /// The state-machine invariant: three history entries, an even and
    /// clamped fall duration, a horizontal speed derived from the default,
    /// a bounded vertical speed, a well-formed world and a box of bounded
    /// non-negative extent. Every entry point preserves it.
    pub open spec fn inv(self) -> bool {
        &&& self.world.wf()
        &&& self.positions_y.len() == 3
        &&& 0 <= self.fall_time <= MAX_FALL_TIME as int
        &&& self.fall_time % 2 == 0
        &&& -(SPEED_LIMIT as int) <= self.default_speed.x <= SPEED_LIMIT as int
        &&& -(SPEED_LIMIT as int) <= self.default_speed.y <= SPEED_LIMIT as int
        &&& (self.speed.x == self.default_speed.x || self.speed.x == self.default_speed.x
            + FALL_SPEED_BOOST as int)
        &&& -(SPEED_LIMIT as int + accel_term(MAX_FALL_TIME as int)) <= self.speed.y
        &&& self.speed.y <= SPEED_LIMIT as int + accel_term(MAX_FALL_TIME as int)
        &&& 0 <= self.animation_index <= 3
        &&& 0 <= self.rect.w <= COORD_LIMIT as int
        &&& 0 <= self.rect.h <= COORD_LIMIT as int
    }

    /// Full well-formedness: the invariant plus a box position within the
    /// coordinate bound, which keeps one frame of arithmetic exact.
    pub open spec fn wf(self) -> bool {
        self.inv() && self.rect.wf()
    }
}

/// The player actor: its collision box, speeds, falling state, vertical
/// position history, selected animation, and the world it collides with.
pub struct Player {
    pub rect: Rect,
    pub default_speed: Vec2,
    pub is_falling: bool,
    pub speed: Vec2,
    pub world: World,
    pub positions_y: VecDeque<i64>,
    pub fall_time: i64,
    pub animation_index: usize,
}

impl View for Player {
    type V = PlayerV;

    open spec fn view(&self) -> PlayerV {
        PlayerV {
            rect: self.rect@,
            default_speed: self.default_speed@,
            speed: self.speed@,
            is_falling: self.is_falling,
            world: self.world@,
            positions_y: self.positions_y@.map_values(|v: i64| v as int),
            fall_time: self.fall_time as int,
            animation_index: self.animation_index as int,
        }
    }
}

impl Player {
    /// Builds the player: the collision box takes the sprite frame's
    /// dimensions (trimmed in width, padded in height) and is placed at
    /// the spawn point; the history is seeded with the spawn height and
    /// two zero entries.
    pub fn new(
        frame_width: i64,
        frame_height: i64,
        spawn_point: Vec2,
        default_speed: Vec2,
        world: World,
    ) -> (player: Player)
        requires
            world@.wf(),
            PLAYER_WIDTH_TRIM <= frame_width <= COORD_LIMIT,
            0 <= frame_height && frame_height + PLAYER_HEIGHT_PAD <= COORD_LIMIT,
            -COORD_LIMIT <= spawn_point.x,
            spawn_point.x + (frame_width - PLAYER_WIDTH_TRIM) <= COORD_LIMIT,
            -COORD_LIMIT <= spawn_point.y,
            spawn_point.y + (frame_height + PLAYER_HEIGHT_PAD) <= COORD_LIMIT,
            -SPEED_LIMIT <= default_speed.x <= SPEED_LIMIT,
            -SPEED_LIMIT <= default_speed.y <= SPEED_LIMIT,
        ensures
            player@.wf(),
            player@.rect == (RectV {
                x: spawn_point@.x,
                y: spawn_point@.y,
                w: frame_width - PLAYER_WIDTH_TRIM,
                h: frame_height + PLAYER_HEIGHT_PAD,
            }),
            player@.default_speed == default_speed@,
            player@.speed == default_speed@,
            !player@.is_falling,
            player@.fall_time == 0,
            player@.positions_y == seq![spawn_point@.y, 0int, 0int],
            player@.animation_index == ANIMATION_IDLE as int,
            player@.world == world@,
    {
        let mut rect = Rect::new(
            0,
            0,
            frame_width - PLAYER_WIDTH_TRIM,
            frame_height + PLAYER_HEIGHT_PAD,
        );
        rect.move_to(spawn_point);
        let mut positions_y: VecDeque<i64> = VecDeque::new();
        positions_y.push_back(rect.y);
        positions_y.push_back(0);
        positions_y.push_back(0);
        let player = Player {
            rect,
            default_speed,
            is_falling: false,
            speed: default_speed,
            world,
            positions_y,
            fall_time: 0,
            animation_index: ANIMATION_IDLE,
        };
        proof {
            assert(player@.positions_y =~= seq![spawn_point@.y, 0int, 0int]);
        }
        player
    }

    /// Carries out one movement intent; see [`move_spec`]. A blocked move
    /// leaves the position untouched on both axes.
    pub fn _move(&mut self, direction: Direction)
        requires
            old(self)@.wf(),
        ensures
            final(self)@ == move_spec(old(self)@, direction),
            final(self)@.inv(),
    {
        match direction {
            Direction::Left => {
                let movement_vector = Vec2::new(-self.speed.x, 0);
                if !self.world.collision(&self.rect, movement_vector) {
                    self.animation_index = ANIMATION_LEFT;
                    let destination = Vec2::new(
                        self.rect.x + movement_vector.x,
                        self.rect.y + movement_vector.y,
                    );
                    self.rect.move_to(destination);
                }
            },
            Direction::Right => {
                let movement_vector = Vec2::new(self.speed.x, 0);
                if !self.world.collision(&self.rect, movement_vector) {
                    self.animation_index = ANIMATION_RIGHT;
                    let destination = Vec2::new(
                        self.rect.x + movement_vector.x,
                        self.rect.y + movement_vector.y,
                    );
                    self.rect.move_to(destination);
                }
            },
            Direction::Down => {
                let movement_vector = Vec2::new(0, self.speed.y);
                if !self.world.collision(&self.rect, movement_vector) {
                    self.animation_index = ANIMATION_FALL;
                    let destination = Vec2::new(
                        self.rect.x + movement_vector.x,
                        self.rect.y + movement_vector.y,
                    );
                    self.rect.move_to(destination);
                }
            },
            Direction::Idle => {
                self.animation_index = ANIMATION_IDLE;
            },
        }
        proof {
            assert(self@ =~= move_spec(old(self)@, direction));
        }
    }

    /// A jump impulse of the given height; it has no effect at all while
    /// the player is falling.
    pub fn jump(&mut self, height: i64)
        requires
            old(self)@.wf(),
            -SPEED_LIMIT <= height <= SPEED_LIMIT,
        ensures
            final(self)@ == jump_spec(old(self)@, height as int),
            final(self)@.inv(),
            old(self)@.is_falling ==> *final(self) == *old(self),
    {
        if !self.is_falling {
            self.speed.y = -height;
        }
        proof {
            assert(self@ =~= jump_spec(old(self)@, height as int));
        }
    }

    /// Gravity integration: ground check, acceleration, then the
    /// attempted vertical move; see [`apply_gravity_spec`].
    fn apply_gravity(&mut self)
        requires
            old(self)@.wf(),
        ensures
            final(self)@ == apply_gravity_spec(old(self)@),
            final(self)@.inv(),
    {
        if self.world.collision(&self.rect, Vec2::new(0, self.speed.y)) {
            self.speed.y = self.default_speed.y;
        }
        proof {
            assert(self.speed.y as int == ground_checked_speed_y(old(self)@));
        }
        let acceleration_term = 3 * self.fall_time / 2;
        if self.speed.y < 0 {
            self.speed.y = self.speed.y + acceleration_term;
        } else {
            self.speed.y = self.default_speed.y + acceleration_term;
        }
        proof {
            assert(self.speed.y as int == gravity_speed_y(old(self)@));
            assert(self@ =~= (PlayerV {
                speed: Vec2V { x: old(self)@.speed.x, y: gravity_speed_y(old(self)@) },
                ..old(self)@
            }));
            assert(self@.wf());
        }
        self._move(Direction::Down);
    }

    /// One physics frame: classify falling against the history, rotate
    /// the history, then integrate gravity; see [`update_spec`].
    pub fn update(&mut self)
        requires
            old(self)@.wf(),
        ensures
            final(self)@ == update_spec(old(self)@),
            final(self)@.inv(),
    {
        let previous_position = self.positions_y[0];
        if previous_position != self.rect.y {
            self.is_falling = true;
            self.speed.x = self.default_speed.x + FALL_SPEED_BOOST;
            if self.fall_time + FALL_TIME_STEP <= MAX_FALL_TIME {
                self.fall_time = self.fall_time + FALL_TIME_STEP;
            } else {
                self.fall_time = MAX_FALL_TIME;
            }
        } else {
            self.is_falling = false;
            self.speed.x = self.default_speed.x;
            self.fall_time = 0;
        }
        proof {
            assert(self@ =~= classify_spec(old(self)@));
        }
        let ghost classified = self@;
        self.positions_y.push_front(self.rect.y);
        let _ = self.positions_y.pop_back();
        proof {
            assert(self@.positions_y =~= (seq![classified.rect.y] + classified.positions_y).drop_last());
            assert(self@ =~= rotate_history_spec(classified));
            assert(self@.wf());
        }
        self.apply_gravity();
    }
}

/// Blocked-move law: if the displacement a movement intent asks for
/// collides with the solid geometry, the move changes nothing — the
/// position stays byte-for-byte the same on both axes.
pub proof fn lemma_blocked_move(p: PlayerV, direction: Direction)
    requires
        p.world.collides(p.rect, displacement_of(p, direction)),
    ensures
        move_spec(p, direction).rect == p.rect,
        !(direction is Idle) ==> move_spec(p, direction) == p,
{
}

/// Falling-classifier law: a player whose vertical position does not
/// change across three consecutive frames is not falling after the third,
/// and its fall duration has been reset to zero.
pub proof fn lemma_resting_player_not_falling(p0: PlayerV)
    requires
        p0.positions_y.len() >= 1,
    ensures
        ({
            let p1 = update_spec(p0);
            let p2 = update_spec(p1);
            let p3 = update_spec(p2);
            (p1.rect.y == p0.rect.y && p2.rect.y == p1.rect.y && p3.rect.y == p2.rect.y) ==> (
            !p3.is_falling && p3.fall_time == 0)
        }),
{
    let p1 = update_spec(p0);
    let p2 = update_spec(p1);
    let p3 = update_spec(p2);
    if p1.rect.y == p0.rect.y && p2.rect.y == p1.rect.y && p3.rect.y == p2.rect.y {
        assert(p2.positions_y[0] == p1.rect.y);
        assert(!classify_spec(p2).is_falling);
        assert(classify_spec(p2).fall_time == 0);
    }
}

/// Ground-reset law: when the ground check collides, gravity integration
/// starts from the default vertical speed, so the player leaves the frame
/// with exactly the default speed plus the acceleration term.
pub proof fn lemma_ground_reset(p: PlayerV)
    requires
        p.world.collides(p.rect, Vec2V { x: 0, y: p.speed.y }),
    ensures
        ground_checked_speed_y(p) == p.default_speed.y,
        gravity_speed_y(p) == p.default_speed.y + accel_term(p.fall_time),
{
}

} // verus!
