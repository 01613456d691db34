//! Humanoids: the player and every enemy share one record type with
//! hearts, position, velocity, facing, a fire-rate check and a table of
//! active power-ups.

use vstd::prelude::*;
use crate::geom::{
    clamp, clamp_spec, mul_mil, mul_mil_spec, rects_intersect_spec, scale, scale_spec, Bounds,
    Rect, Vec2i, ARENA_SIDE, COORD_LIMIT,
};
use crate::powerup::{ActivePowerUps, BASE_RUN_SPEED_MIL, FAST_RUN_SPEED_MIL};
use crate::trig::{atan2_deg, atan2_deg_spec, cos_mil, cos_mil_spec, sin_mil, sin_mil_spec};

verus! {

/// Side of a humanoid's square body box, in coordinate units (16 px).
pub const BODY_SIDE: i64 = 16_000;

/// Velocities never leave this range; movement code keeps them inside.
pub const VEL_LIMIT: i64 = 2_000_000;

/// Length of the cosmetic flicker started by a hit, in draw ticks.
pub const HIT_FLICKER_TICKS: u16 = 60;

/// Drag divisor (thousandths) applied to the previous velocity while
/// there is directional input.
pub const MOVING_DRAG_MIL: u32 = 1400;

/// Drag divisor (thousandths) applied while there is no input.
pub const STOPPING_DRAG_MIL: u32 = 1900;

/// Unit-vector component (thousandths) of a diagonal input.
pub const DIAG_MIL: i64 = 707;

/// The four facings a humanoid can render in.
#[derive(Clone, Copy, Debug, PartialEq, Eq, Structural)]
pub enum Direction {
    North,
    South,
    East,
    West,
}

/// What sort of humanoid a record is; immutable after construction.
#[derive(Clone, Copy, Debug, PartialEq, Eq, Structural)]
pub enum HumanoidType {
    Player,
    BasicEnemy,
    StrongerEnemy,
    BadassEnemy,
    Boss,
}

/// The per-humanoid fire-rate check: ready once `wait_interval_ms` have
/// elapsed since the last shot.
#[derive(Clone, Copy, Debug, PartialEq, Eq, Structural)]
pub struct ShootingBehavior {
    /// The last instant this humanoid fired, in milliseconds.
    pub last_fire_ms: u64,
    /// The interval this humanoid must wait between shots.
    pub wait_interval_ms: u64,
}

impl ShootingBehavior {
    /// Whether the wait interval has elapsed at instant `now`.
    pub open spec fn ready_spec(self, now: int) -> bool {
        now >= self.last_fire_ms + self.wait_interval_ms
    }

    pub fn ready(&self, now_ms: u64) -> (r: bool)
        ensures
            r == self.ready_spec(now_ms as int),
    {
        now_ms >= self.last_fire_ms && now_ms - self.last_fire_ms >= self.wait_interval_ms
    }

    /// Record a shot fired at instant `now`.
    pub fn register_fire(&mut self, now_ms: u64)
        ensures
            final(self).last_fire_ms == now_ms,
            final(self).wait_interval_ms == old(self).wait_interval_ms,
    {
        self.last_fire_ms = now_ms;
    }

    /// Change the wait interval (the fire-rate buff does this).
    pub fn set_shooting_wait_time(&mut self, wait_ms: u64)
        ensures
            final(self).last_fire_ms == old(self).last_fire_ms,
            final(self).wait_interval_ms == wait_ms,
    {
        self.wait_interval_ms = wait_ms;
    }
}

/// The body box of a humanoid standing at `pos`.
pub open spec fn body_rect_spec(pos: Vec2i) -> Rect {
    Rect { x: pos.x, y: pos.y, width: BODY_SIDE, height: BODY_SIDE }
}

/// The raw per-axis input, `-1`, `0` or `1`.
pub open spec fn axis_input_spec(neg: bool, pos: bool) -> int {
    (if pos {
        1int
    } else {
        0int
    }) - (if neg {
        1int
    } else {
        0int
    })
}

/// The input vector in fixed-point units: unit length, so a diagonal
/// input uses the diagonal component on both axes.
pub open spec fn input_vec_spec(left: bool, right: bool, up: bool, down: bool) -> (int, int) {
    let x = axis_input_spec(left, right);
    let y = axis_input_spec(up, down);
    if x != 0 && y != 0 {
        (x * DIAG_MIL, y * DIAG_MIL)
    } else {
        (x * 1000, y * 1000)
    }
}

/// The facing implied by the raw input pair, keeping the current
/// facing when the pair decides nothing.
pub open spec fn walk_direction_spec(x: int, y: int, current: Direction) -> Direction {
    if x == -1 && y == 0 {
        Direction::West
    } else if x == 0 && y == 1 {
        Direction::South
    } else if x == 1 && y == 0 {
        Direction::East
    } else if x == 0 && y == -1 {
        Direction::North
    } else if x == 1 && y == 1 {
        Direction::South
    } else if x == 1 && y == -1 {
        Direction::East
    } else {
        current
    }
}

/// One velocity component after drag: divided by the moving drag when
/// there is input, by the larger stopping drag when there is none.
pub open spec fn dragged_spec(v: int, moving: bool) -> int {
    if moving {
        scale_spec(v, 1000, MOVING_DRAG_MIL as int)
    } else {
        scale_spec(v, 1000, STOPPING_DRAG_MIL as int)
    }
}

/// The facing bucket of a heading in whole degrees: the circle split
/// in four quarters with a 45-degree offset.
pub open spec fn facing_of_deg_spec(deg: int) -> Direction {
    let b = ((deg % 360) + 45) % 360 / 90;
    if b == 0 {
        Direction::East
    } else if b == 1 {
        Direction::North
    } else if b == 2 {
        Direction::West
    } else {
        Direction::South
    }
}

/// The humanoid after one walk step from four directional input
/// signals: the input vector is normalized, the previous velocity is
/// dragged (more drag without input) and scaled by the walk-speed
/// factor, and the candidate position is accepted — with the velocity
/// update — only if it lies fully within the arena.
pub open spec fn walk_spec(
    h: Humanoid,
    left: bool,
    right: bool,
    up: bool,
    down: bool,
    speed_mil: int,
) -> Humanoid {
    let x = axis_input_spec(left, right);
    let y = axis_input_spec(up, down);
    let iv = input_vec_spec(left, right, up, down);
    let moving = x != 0 || y != 0;
    let dvx = dragged_spec(h.velocity.x as int, moving);
    let dvy = dragged_spec(h.velocity.y as int, moving);
    let cx = h.position.x + iv.0 + scale_spec(dvx, speed_mil, 1000);
    let cy = h.position.y + iv.1 + scale_spec(dvy, speed_mil, 1000);
    let accepted = 0 <= cx <= ARENA_SIDE && 0 <= cy <= ARENA_SIDE;
    Humanoid {
        direction: walk_direction_spec(x, y, h.direction),
        position: if accepted {
            Vec2i { x: cx as i64, y: cy as i64 }
        } else {
            h.position
        },
        velocity: if accepted {
            Vec2i { x: (dvx + iv.0) as i64, y: (dvy + iv.1) as i64 }
        } else {
            h.velocity
        },
        ..h
    }
}

/// The humanoid after one seek step toward `destination`: moved along
/// the unit heading by its own velocity (scaled up by the
/// faster-running ratio while that buff is active), clamped to the
/// coordinate range, and facing the heading.
pub open spec fn seek_spec(h: Humanoid, destination: Vec2i, faster_running: bool) -> Humanoid {
    let theta = atan2_deg_spec(h.position.y - destination.y, destination.x - h.position.x);
    let sx0 = mul_mil_spec(cos_mil_spec(theta), h.velocity.x as int);
    let sy0 = mul_mil_spec(-sin_mil_spec(theta), h.velocity.y as int);
    let sx = if faster_running {
        scale_spec(sx0, FAST_RUN_SPEED_MIL as int, BASE_RUN_SPEED_MIL as int)
    } else {
        sx0
    };
    let sy = if faster_running {
        scale_spec(sy0, FAST_RUN_SPEED_MIL as int, BASE_RUN_SPEED_MIL as int)
    } else {
        sy0
    };
    Humanoid {
        position: Vec2i {
            x: clamp_spec(h.position.x + sx, COORD_LIMIT as int) as i64,
            y: clamp_spec(h.position.y + sy, COORD_LIMIT as int) as i64,
        },
        direction: facing_of_deg_spec(theta),
        ..h
    }
}

/// A player or enemy.
#[derive(Clone, Copy, Debug)]
pub struct Humanoid {
    /// Health; reaching 0 marks the entity dead (game over for the
    /// player).
    pub hearts: u32,
    /// Current facing, for rendering.
    pub direction: Direction,
    /// Centre position in fixed-point coordinates.
    pub position: Vec2i,
    /// Velocity in fixed-point coordinates per tick.
    pub velocity: Vec2i,
    /// Draw ticks left of the cosmetic hit flicker.
    pub flickering: u16,
    /// Whether this humanoid may fire at all.
    pub allowed_to_shoot: bool,
    /// The fire-rate check.
    pub shooting: ShootingBehavior,
    /// The table of active timed buffs.
    pub power_ups: ActivePowerUps,
    /// What sort of humanoid this is.
    pub kind: HumanoidType,
}

impl Humanoid {
    /// Every stored coordinate within the clamped simulation range.
    pub open spec fn wf(self) -> bool {
        &&& self.position.bounded(COORD_LIMIT as int)
        &&& self.velocity.bounded(VEL_LIMIT as int)
    }

    pub fn new(
        hearts: u32,
        position: Vec2i,
        velocity: Vec2i,
        allowed_to_shoot: bool,
        shooting_wait_ms: u64,
        kind: HumanoidType,
        now_ms: u64,
    ) -> (r: Humanoid)
        requires
            position.bounded(COORD_LIMIT as int),
            velocity.bounded(VEL_LIMIT as int),
        ensures
            r.hearts == hearts,
            r.direction == Direction::North,
            r.position == position,
            r.velocity == velocity,
            r.flickering == 0,
            r.allowed_to_shoot == allowed_to_shoot,
            r.shooting == (ShootingBehavior {
                last_fire_ms: now_ms,
                wait_interval_ms: shooting_wait_ms,
            }),
            r.power_ups.slots[0] is None,
            r.power_ups.slots[1] is None,
            r.power_ups.slots[2] is None,
            r.kind == kind,
            r.wf(),
    {
        Humanoid {
            hearts,
            direction: Direction::North,
            position,
            velocity,
            flickering: 0,
            allowed_to_shoot,
            shooting: ShootingBehavior { last_fire_ms: now_ms, wait_interval_ms: shooting_wait_ms },
            power_ups: ActivePowerUps::new(),
            kind,
        }
    }

    /// Whether the fire-rate window is open at instant `now`.
    pub fn can_fire(&self, now_ms: u64) -> (r: bool)
        ensures
            r == self.shooting.ready_spec(now_ms as int),
    {
        self.shooting.ready(now_ms)
    }

    /// Record a shot fired at instant `now`.
    pub fn register_fire(&mut self, now_ms: u64)
        ensures
            *final(self) == (Humanoid {
                shooting: ShootingBehavior {
                    last_fire_ms: now_ms,
                    wait_interval_ms: old(self).shooting.wait_interval_ms,
                },
                ..*old(self)
            }),
    {
        self.shooting.register_fire(now_ms);
    }

    /// Whether this humanoid is out of hearts.
    pub fn is_dead(&self) -> (r: bool)
        ensures
            r == (self.hearts == 0),
    {
        self.hearts == 0
    }

    /// Lose exactly one heart, floored at zero, and start the cosmetic
    /// hit flicker.
    pub fn take_hit(&mut self)
        ensures
            final(self).hearts == (if old(self).hearts > 0 {
                old(self).hearts - 1
            } else {
                0
            }),
            final(self).flickering == HIT_FLICKER_TICKS,
            *final(self) == (Humanoid {
                hearts: final(self).hearts,
                flickering: HIT_FLICKER_TICKS,
                ..*old(self)
            }),
    {
        if self.hearts > 0 {
            self.hearts = self.hearts - 1;
        }
        self.flickering = HIT_FLICKER_TICKS;
    }

    /// One draw tick of the cosmetic hit flicker: while it runs, the
    /// counter falls by one and the humanoid is visible only on the
    /// odd counts, so it blinks every other frame.
    pub fn flicker_step(&mut self) -> (visible: bool)
        ensures
            final(self).flickering == (if old(self).flickering > 0 {
                old(self).flickering - 1
            } else {
                0
            }),
            visible == (old(self).flickering == 0 || final(self).flickering % 2 != 0),
            *final(self) == (Humanoid { flickering: final(self).flickering, ..*old(self) }),
    {
        if self.flickering > 0 {
            self.flickering = self.flickering - 1;
            self.flickering % 2 != 0
        } else {
            true
        }
    }

    /// The 16 by 16 pixel body box of this humanoid.
    pub fn rectangle(&self) -> (r: Rect)
        ensures
            r == body_rect_spec(self.position),
    {
        Rect::new(self.position.x, self.position.y, BODY_SIDE, BODY_SIDE)
    }

    /// The heading from this humanoid to `destination`, in whole
    /// degrees in `[-180, 180]`, with the vertical axis flipped for
    /// screen coordinates.
    pub fn angle_to_pos(&self, destination: Vec2i) -> (r: i64)
        requires
            self.wf(),
            destination.bounded(COORD_LIMIT as int),
        ensures
            r == atan2_deg_spec(
                self.position.y - destination.y,
                destination.x - self.position.x,
            ),
            -180 <= r <= 180,
    {
        let delta_y: i64 = self.position.y - destination.y;
        let delta_x: i64 = destination.x - self.position.x;
        atan2_deg(delta_y, delta_x)
    }

    /// Face toward a heading given in whole degrees.
    pub fn look_to(&mut self, direction_deg: i64)
        ensures
            *final(self) == (Humanoid {
                direction: facing_of_deg_spec(direction_deg as int),
                ..*old(self)
            }),
    {
        let d: u64 = crate::trig::norm_deg(direction_deg);
        let b: u64 = (d + 45) % 360 / 90;
        self.direction = if b == 0 {
            Direction::East
        } else if b == 1 {
            Direction::North
        } else if b == 2 {
            Direction::West
        } else {
            Direction::South
        };
    }

    /// Walk from four directional input signals: build a unit input
    /// vector, drag the previous velocity (more drag without input),
    /// scale by the walk-speed factor and add to the position.  The
    /// candidate position is accepted, and the velocity updated, only
    /// if it lies fully within the arena; otherwise both position and
    /// velocity are left unchanged for this tick.
    pub fn update_from_key_press(
        &mut self,
        left: bool,
        right: bool,
        up: bool,
        down: bool,
        speed_mil: u32,
    )
        requires
            old(self).wf(),
            speed_mil <= 10_000,
        ensures
            final(self).wf(),
            *final(self) == walk_spec(*old(self), left, right, up, down, speed_mil as int),
    {
        let x: i64 = (if right {
            1i64
        } else {
            0i64
        }) - (if left {
            1i64
        } else {
            0i64
        });
        let y: i64 = (if down {
            1i64
        } else {
            0i64
        }) - (if up {
            1i64
        } else {
            0i64
        });

        self.direction = if x == -1 && y == 0 {
            Direction::West
        } else if x == 0 && y == 1 {
            Direction::South
        } else if x == 1 && y == 0 {
            Direction::East
        } else if x == 0 && y == -1 {
            Direction::North
        } else if x == 1 && y == 1 {
            Direction::South
        } else if x == 1 && y == -1 {
            Direction::East
        } else {
            self.direction
        };

        let diagonal = x != 0 && y != 0;
        let ix: i64 = if diagonal {
            x * DIAG_MIL
        } else {
            x * 1000
        };
        let iy: i64 = if diagonal {
            y * DIAG_MIL
        } else {
            y * 1000
        };

        let moving = x != 0 || y != 0;
        let drag: u32 = if moving {
            MOVING_DRAG_MIL
        } else {
            STOPPING_DRAG_MIL
        };
        let dvx: i64 = scale(self.velocity.x, 1000, drag);
        let dvy: i64 = scale(self.velocity.y, 1000, drag);

        let cx: i64 = self.position.x + ix + scale(dvx, speed_mil, 1000);
        let cy: i64 = self.position.y + iy + scale(dvy, speed_mil, 1000);

        if Bounds::arena().contains(Vec2i::new(cx, cy)) {
            self.position = Vec2i::new(cx, cy);
            self.velocity = Vec2i::new(dvx + ix, dvy + iy);
        }
    }

    /// Seek directly toward `destination` at this humanoid's own
    /// velocity: step along the unit heading, scaled up by the
    /// faster-running ratio while that buff is active, and face the
    /// heading.  The new position is clamped to the simulation's
    /// coordinate range.
    pub fn head_to(&mut self, destination: Vec2i, faster_running: bool)
        requires
            old(self).wf(),
            destination.bounded(COORD_LIMIT as int),
        ensures
            final(self).wf(),
            *final(self) == seek_spec(*old(self), destination, faster_running),
    {
        let theta = self.angle_to_pos(destination);
        let c = cos_mil(theta);
        let s = sin_mil(theta);
        let mut sx = mul_mil(c, self.velocity.x);
        let mut sy = mul_mil(0 - s, self.velocity.y);
        if faster_running {
            sx = scale(sx, FAST_RUN_SPEED_MIL, BASE_RUN_SPEED_MIL);
            sy = scale(sy, FAST_RUN_SPEED_MIL, BASE_RUN_SPEED_MIL);
        }
        self.position = Vec2i::new(
            clamp(self.position.x + sx, COORD_LIMIT),
            clamp(self.position.y + sy, COORD_LIMIT),
        );
        self.look_to(theta);
    }

    /// Whether this humanoid's body box intersects any of the given
    /// bodies; also returns the body boxes so callers can reuse them.
    pub fn collided_with_bodies(&self, bodies: &Vec<Humanoid>) -> (r: (bool, Vec<Rect>))
        requires
            self.wf(),
            forall|i: int| 0 <= i < bodies@.len() ==> (#[trigger] bodies@[i]).wf(),
        ensures
            r.1@.len() == bodies@.len(),
            forall|i: int|
                0 <= i < bodies@.len() ==> r.1@[i] == body_rect_spec(#[trigger] bodies@[i].position),
            r.0 == exists|i: int|
                0 <= i < bodies@.len() && rects_intersect_spec(
                    body_rect_spec(self.position),
                    body_rect_spec(#[trigger] bodies@[i].position),
                ),
    {
        let player_rect = self.rectangle();
        let mut body_rects: Vec<Rect> = Vec::new();
        let mut i: usize = 0;
        while i < bodies.len()
            invariant
                i <= bodies@.len(),
                body_rects@.len() == i,
                forall|j: int|
                    0 <= j < i ==> body_rects@[j] == body_rect_spec(
                        #[trigger] bodies@[j].position,
                    ),
                forall|j: int| 0 <= j < bodies@.len() ==> (#[trigger] bodies@[j]).wf(),
            decreases bodies@.len() - i,
        {
            let b = &bodies[i];
            body_rects.push(Rect::new(b.position.x, b.position.y, BODY_SIDE, BODY_SIDE));
            i = i + 1;
        }
        let mut k: usize = 0;
        while k < body_rects.len()
            invariant
                self.wf(),
                player_rect == body_rect_spec(self.position),
                k <= body_rects@.len(),
                body_rects@.len() == bodies@.len(),
                forall|j: int|
                    0 <= j < bodies@.len() ==> body_rects@[j] == body_rect_spec(
                        #[trigger] bodies@[j].position,
                    ),
                forall|j: int| 0 <= j < bodies@.len() ==> (#[trigger] bodies@[j]).wf(),
                forall|j: int|
                    0 <= j < k ==> !rects_intersect_spec(
                        body_rect_spec(self.position),
                        body_rect_spec(#[trigger] bodies@[j].position),
                    ),
            decreases body_rects@.len() - k,
        {
            proof {
                assert(body_rects@[k as int] == body_rect_spec(bodies@[k as int].position));
                assert(bodies@[k as int].wf());
            }
            if player_rect.intersects(&body_rects[k]) {
                proof {
                    assert(rects_intersect_spec(
                        body_rect_spec(self.position),
                        body_rect_spec(bodies@[k as int].position),
                    ));
                }
                return (true, body_rects);
            }
            k = k + 1;
        }
        (false, body_rects)
    }
}

/// Law: for every reachable state, a humanoid's hearts never go
/// negative: they are unsigned, and `take_hit` floors the decrement at
/// zero.
pub proof fn lemma_hearts_nonnegative(h: Humanoid)
    ensures
        h.hearts >= 0,
{
}

} // verus!
