//! Power-ups: the four kinds, the per-humanoid table of active timed
//! buffs, the ground items waiting to be picked up, and the manager
//! that spawns, expires and applies them.
//!
//! `AdditionalHeart` acts instantly on pickup; the other three kinds
//! are timed buffs held in a fixed three-slot table, one slot per
//! kind, each slot an optional activation instant.  Reactivating a
//! buff overwrites the instant (refresh, not stacking).

use vstd::prelude::*;
use crate::geom::{rects_intersect_spec, Rect, Vec2i, ARENA_SIDE, COORD_LIMIT};
use crate::humanoid::{body_rect_spec, Humanoid};
use crate::seqs::{lemma_filter_push, lemma_map_push};
use crate::timer::Timer;

verus! {

/// Side of a ground power-up's pickup box, in coordinate units (32 px).
pub const POWER_UP_SIDE: i64 = 32_000;

/// New power-ups spawn every 3 seconds.
pub const POWER_UP_SPAWN_INTERVAL_MS: u64 = 3000;

/// A spawned power-up stays on the ground for 10 seconds.
pub const POWER_UP_AVAILABILITY_MS: u64 = 10_000;

/// A timed buff stays active for 5 seconds after (re)activation.
pub const BUFF_DURATION_MS: u64 = 5000;

/// Ground time after which a power-up starts to flicker (2 seconds
/// before it expires).
pub const FLICKER_WARN_ELAPSED_MS: u64 = 8000;

/// Length of the cosmetic expiry flicker, in draw ticks.
pub const POWER_UP_FLICKER_TICKS: u8 = 120;

/// Shooting interval without the `FasterShooting` buff.
pub const BASE_SHOOT_INTERVAL_MS: u64 = 250;

/// Shooting interval while `FasterShooting` is active.
pub const FAST_SHOOT_INTERVAL_MS: u64 = 80;

/// Walk-speed factor (thousandths) without the `FasterRunning` buff.
pub const BASE_RUN_SPEED_MIL: u32 = 2100;

/// Walk-speed factor (thousandths) while `FasterRunning` is active.
pub const FAST_RUN_SPEED_MIL: u32 = 4500;

/// The four kinds of power-up.
#[derive(Clone, Copy, Debug, Hash, PartialEq, Eq, Structural)]
pub enum PowerUpKind {
    AdditionalHeart,
    FasterShooting,
    FasterRunning,
    TripleShooting,
}

/// The buff slot a timed kind occupies.  `AdditionalHeart` is applied
/// instantly and never occupies a slot.
pub open spec fn slot_of_spec(kind: PowerUpKind) -> int {
    match kind {
        PowerUpKind::AdditionalHeart => 3,
        PowerUpKind::FasterShooting => 0,
        PowerUpKind::FasterRunning => 1,
        PowerUpKind::TripleShooting => 2,
    }
}

/// The per-humanoid table of currently active timed buffs: exactly
/// three slots, one per timed kind, each an optional activation
/// instant in milliseconds.
#[derive(Clone, Copy, Debug)]
pub struct ActivePowerUps {
    pub slots: [Option<u64>; 3],
}

impl ActivePowerUps {
    /// Whether the timed buff `kind` is active at instant `now`: its
    /// slot holds an activation instant less than a buff duration ago.
    pub open spec fn active_spec(self, kind: PowerUpKind, now: int) -> bool
        recommends
            kind != PowerUpKind::AdditionalHeart,
    {
        match self.slots[slot_of_spec(kind)] {
            Some(t) => now < t + BUFF_DURATION_MS,
            None => false,
        }
    }

    /// The active kinds in presentation order at instant `now`.
    pub open spec fn active_seq_spec(self, now: int) -> Seq<PowerUpKind> {
        let running = if self.active_spec(PowerUpKind::FasterRunning, now) {
            seq![PowerUpKind::FasterRunning]
        } else {
            Seq::<PowerUpKind>::empty()
        };
        let shooting = if self.active_spec(PowerUpKind::FasterShooting, now) {
            seq![PowerUpKind::FasterShooting]
        } else {
            Seq::<PowerUpKind>::empty()
        };
        let triple = if self.active_spec(PowerUpKind::TripleShooting, now) {
            seq![PowerUpKind::TripleShooting]
        } else {
            Seq::<PowerUpKind>::empty()
        };
        running + shooting + triple
    }

    pub fn new() -> (r: ActivePowerUps)
        ensures
            r.slots[0] is None,
            r.slots[1] is None,
            r.slots[2] is None,
    {
        ActivePowerUps { slots: [None, None, None] }
    }

    /// The slot index of a timed kind.
    fn slot_index(kind: PowerUpKind) -> (r: usize)
        requires
            kind != PowerUpKind::AdditionalHeart,
        ensures
            r == slot_of_spec(kind),
            r < 3,
    {
        match kind {
            PowerUpKind::AdditionalHeart => 0,
            PowerUpKind::FasterShooting => 0,
            PowerUpKind::FasterRunning => 1,
            PowerUpKind::TripleShooting => 2,
        }
    }

    /// The activation instant of a timed kind, as long as the buff is
    /// still active at `now`.
    pub fn get(&self, kind: PowerUpKind, now_ms: u64) -> (r: Option<u64>)
        requires
            kind != PowerUpKind::AdditionalHeart,
        ensures
            r == (if self.active_spec(kind, now_ms as int) {
                self.slots[slot_of_spec(kind)]
            } else {
                None
            }),
    {
        let idx = Self::slot_index(kind);
        match self.slots[idx] {
            Some(t) => {
                let active = if now_ms >= t {
                    now_ms - t < BUFF_DURATION_MS
                } else {
                    true
                };
                if active {
                    Some(t)
                } else {
                    None
                }
            },
            None => None,
        }
    }

    /// Which of (faster shooting, faster running, triple shooting) is
    /// active at instant `now`.
    pub fn currently_active(&self, now_ms: u64) -> (r: (bool, bool, bool))
        ensures
            r.0 == self.active_spec(PowerUpKind::FasterShooting, now_ms as int),
            r.1 == self.active_spec(PowerUpKind::FasterRunning, now_ms as int),
            r.2 == self.active_spec(PowerUpKind::TripleShooting, now_ms as int),
    {
        (
            self.get(PowerUpKind::FasterShooting, now_ms).is_some(),
            self.get(PowerUpKind::FasterRunning, now_ms).is_some(),
            self.get(PowerUpKind::TripleShooting, now_ms).is_some(),
        )
    }

    /// How many kinds of power-ups are currently active.
    pub fn len(&self, now_ms: u64) -> (r: usize)
        ensures
            r == self.active_seq_spec(now_ms as int).len(),
    {
        let (a, b, c) = self.currently_active(now_ms);
        let mut n: usize = 0;
        if a {
            n = n + 1;
        }
        if b {
            n = n + 1;
        }
        if c {
            n = n + 1;
        }
        n
    }

    /// The active power-up kinds, in presentation order.
    pub fn iter(&self, now_ms: u64) -> (r: Vec<PowerUpKind>)
        ensures
            r@ == self.active_seq_spec(now_ms as int),
    {
        let (fast_shooting, fast_running, triple_shooting) = self.currently_active(now_ms);
        let mut power_ups: Vec<PowerUpKind> = Vec::new();
        if fast_running {
            power_ups.push(PowerUpKind::FasterRunning);
        }
        if fast_shooting {
            power_ups.push(PowerUpKind::FasterShooting);
        }
        if triple_shooting {
            power_ups.push(PowerUpKind::TripleShooting);
        }
        proof {
            assert(power_ups@ =~= self.active_seq_spec(now_ms as int));
        }
        power_ups
    }

    /// Record the activation of a timed buff at instant `now`,
    /// overwriting any earlier activation of the same kind.
    pub fn activate_power_up(&mut self, kind: PowerUpKind, now_ms: u64)
        requires
            kind != PowerUpKind::AdditionalHeart,
        ensures
            final(self).slots@ == old(self).slots@.update(slot_of_spec(kind), Some(now_ms)),
    {
        let idx = Self::slot_index(kind);
        self.slots[idx] = Some(now_ms);
    }
}

/// The effective shooting interval for a given `FasterShooting` state.
pub open spec fn shooting_interval_spec(faster_shooting: bool) -> int {
    if faster_shooting {
        FAST_SHOOT_INTERVAL_MS as int
    } else {
        BASE_SHOOT_INTERVAL_MS as int
    }
}

/// The fire-rate effect of the buff table, as a pure function: the
/// reduced interval while `FasterShooting` is active, the baseline
/// otherwise.
pub fn shooting_interval_ms(faster_shooting: bool) -> (r: u64)
    ensures
        r == shooting_interval_spec(faster_shooting),
{
    if faster_shooting {
        FAST_SHOOT_INTERVAL_MS
    } else {
        BASE_SHOOT_INTERVAL_MS
    }
}

/// The walk-speed effect of the buff table, as a pure function, in
/// thousandths.
pub fn run_speed_mil(faster_running: bool) -> (r: u32)
    ensures
        r == (if faster_running {
            FAST_RUN_SPEED_MIL as int
        } else {
            BASE_RUN_SPEED_MIL as int
        }),
{
    if faster_running {
        FAST_RUN_SPEED_MIL
    } else {
        BASE_RUN_SPEED_MIL
    }
}

/// Law: after `FasterShooting` is activated at instant `t`, the
/// shooting interval reads as the reduced constant at every instant
/// within the buff duration, and reverts to the baseline at every
/// instant from the moment the duration has elapsed.
pub proof fn lemma_faster_shooting_window(a: ActivePowerUps, t: u64, now: u64)
    requires
        a.slots[slot_of_spec(PowerUpKind::FasterShooting)] == Some(t),
    ensures
        now < t + BUFF_DURATION_MS ==> shooting_interval_spec(
            a.active_spec(PowerUpKind::FasterShooting, now as int),
        ) == FAST_SHOOT_INTERVAL_MS,
        now >= t + BUFF_DURATION_MS ==> shooting_interval_spec(
            a.active_spec(PowerUpKind::FasterShooting, now as int),
        ) == BASE_SHOOT_INTERVAL_MS,
{
}

/// Law: a pickup pass in which exactly one power-up overlaps the
/// humanoid, an `AdditionalHeart`, counts exactly one heart gained and
/// no timed hit of any kind — so, by the pickup contract, hearts rise
/// by exactly one and all three buff slots stay untouched.
pub proof fn lemma_additional_heart_pickup(s: Seq<PowerUp>, body_pos: Vec2i, i: int)
    requires
        0 <= i < s.len(),
        powerup_hits_spec(s[i], body_pos),
        s[i].kind == PowerUpKind::AdditionalHeart,
        forall|j: int| 0 <= j < s.len() && j != i ==> !powerup_hits_spec(#[trigger] s[j], body_pos),
    ensures
        heart_hits_count_spec(s, body_pos) == 1,
        !timed_hit_spec(s, body_pos, PowerUpKind::FasterShooting),
        !timed_hit_spec(s, body_pos, PowerUpKind::FasterRunning),
        !timed_hit_spec(s, body_pos, PowerUpKind::TripleShooting),
{
    let pred = |p: PowerUp|
        powerup_hits_spec(p, body_pos) && p.kind == PowerUpKind::AdditionalHeart;
    crate::seqs::lemma_filter_single(s, pred, i);
    assert forall|kind: PowerUpKind|
        kind != PowerUpKind::AdditionalHeart implies !timed_hit_spec(s, body_pos, kind) by {
        if timed_hit_spec(s, body_pos, kind) {
            let j = choose|j: int|
                0 <= j < s.len() && powerup_hits_spec(#[trigger] s[j], body_pos) && s[j].kind
                    == kind;
            assert(j == i);
        }
    }
}

/// A power-up lying on the ground, waiting to be picked up.
#[derive(Clone, Copy, Debug)]
pub struct PowerUp {
    /// What sort of power-up this is.
    pub kind: PowerUpKind,
    /// Times how long this power-up will be available for.
    pub expiration_timer: Timer,
    /// The position the power-up was spawned in.
    pub position: crate::geom::Vec2i,
    /// Whether or not this power-up has been consumed.
    pub was_consumed: bool,
    /// Set while the power-up is flickering (that is, next to
    /// expiring); cosmetic only.
    pub flickering: u8,
}

impl PowerUp {
    /// Whether the ground-availability window has elapsed at `now`.
    pub fn is_expired(&self, now_ms: u64) -> (r: bool)
        ensures
            r == self.expiration_timer.is_ready_spec(now_ms as int),
    {
        self.expiration_timer.is_ready(now_ms)
    }

    /// The state after the expiry-warning check at instant `now`.
    pub open spec fn flicker_checked_spec(self, now: int) -> PowerUp {
        if self.flickering == 0 && self.expiration_timer.elapsed_spec(now)
            > FLICKER_WARN_ELAPSED_MS {
            PowerUp { flickering: POWER_UP_FLICKER_TICKS, ..self }
        } else {
            self
        }
    }

    /// Start the cosmetic expiry flicker once only two seconds of
    /// ground availability remain.
    pub fn flicker_if_almost_expiring(&mut self, now_ms: u64)
        ensures
            *final(self) == old(self).flicker_checked_spec(now_ms as int),
    {
        if self.flickering > 0 {
            return ;
        }
        let elapsed = self.expiration_timer.elapsed(now_ms);
        if elapsed > FLICKER_WARN_ELAPSED_MS {
            self.flickering = POWER_UP_FLICKER_TICKS;
        }
    }

    /// One draw tick of the expiry flicker: while it runs, the counter
    /// falls by one and the power-up is visible only on the odd
    /// counts, so it blinks every other frame.
    pub fn flicker_step(&mut self) -> (visible: bool)
        ensures
            final(self).flickering == (if old(self).flickering > 0 {
                old(self).flickering - 1
            } else {
                0
            }),
            visible == (old(self).flickering == 0 || final(self).flickering % 2 != 0),
            *final(self) == (PowerUp { flickering: final(self).flickering, ..*old(self) }),
    {
        if self.flickering > 0 {
            self.flickering = self.flickering - 1;
            self.flickering % 2 != 0
        } else {
            true
        }
    }
}

/// The pickup box of a power-up lying at `pos`.
pub open spec fn powerup_rect_spec(pos: Vec2i) -> Rect {
    Rect { x: pos.x, y: pos.y, width: POWER_UP_SIDE, height: POWER_UP_SIDE }
}

/// Whether a ground power-up's pickup box overlaps the body box of a
/// humanoid standing at `body_pos`.
pub open spec fn powerup_hits_spec(p: PowerUp, body_pos: Vec2i) -> bool {
    rects_intersect_spec(powerup_rect_spec(p.position), body_rect_spec(body_pos))
}

/// How many `AdditionalHeart` power-ups in `s` overlap the humanoid.
pub open spec fn heart_hits_count_spec(s: Seq<PowerUp>, body_pos: Vec2i) -> int {
    s.filter(
        |p: PowerUp| powerup_hits_spec(p, body_pos) && p.kind == PowerUpKind::AdditionalHeart,
    ).len() as int
}

/// Whether some power-up of the timed kind `kind` in `s` overlaps the
/// humanoid.
pub open spec fn timed_hit_spec(s: Seq<PowerUp>, body_pos: Vec2i, kind: PowerUpKind) -> bool {
    exists|j: int|
        0 <= j < s.len() && powerup_hits_spec(#[trigger] s[j], body_pos) && s[j].kind == kind
}

/// Extending the scanned prefix by one power-up adds a timed hit of
/// `kind` exactly when that power-up overlaps and is of that kind.
proof fn lemma_timed_hit_push(s: Seq<PowerUp>, p: PowerUp, pos: Vec2i, kind: PowerUpKind)
    ensures
        timed_hit_spec(s.push(p), pos, kind) == (timed_hit_spec(s, pos, kind) || (
        powerup_hits_spec(p, pos) && p.kind == kind)),
{
    let t = s.push(p);
    if timed_hit_spec(t, pos, kind) {
        let j = choose|j: int|
            0 <= j < t.len() && powerup_hits_spec(#[trigger] t[j], pos) && t[j].kind == kind;
        if j < s.len() {
            assert(s[j] == t[j]);
            assert(timed_hit_spec(s, pos, kind));
        } else {
            assert(t[j] == p);
        }
    }
    if timed_hit_spec(s, pos, kind) {
        let j = choose|j: int|
            0 <= j < s.len() && powerup_hits_spec(#[trigger] s[j], pos) && s[j].kind == kind;
        assert(t[j] == s[j]);
        assert(timed_hit_spec(t, pos, kind));
    }
    if powerup_hits_spec(p, pos) && p.kind == kind {
        assert(t[s.len() as int] == p);
        assert(timed_hit_spec(t, pos, kind));
    }
}

/// Two power-up sequences equal in positions and kinds have the same
/// timed hits.
proof fn lemma_timed_hit_pointwise(s1: Seq<PowerUp>, s2: Seq<PowerUp>, pos: Vec2i, kind: PowerUpKind)
    requires
        s1.len() == s2.len(),
        forall|i: int|
            0 <= i < s1.len() ==> (#[trigger] s1[i]).position == s2[i].position && s1[i].kind
                == s2[i].kind,
    ensures
        timed_hit_spec(s1, pos, kind) == timed_hit_spec(s2, pos, kind),
{
    if timed_hit_spec(s1, pos, kind) {
        let j = choose|j: int|
            0 <= j < s1.len() && powerup_hits_spec(#[trigger] s1[j], pos) && s1[j].kind == kind;
        assert(powerup_hits_spec(s2[j], pos) && s2[j].kind == kind);
        assert(timed_hit_spec(s2, pos, kind));
    }
    if timed_hit_spec(s2, pos, kind) {
        let j = choose|j: int|
            0 <= j < s2.len() && powerup_hits_spec(#[trigger] s2[j], pos) && s2[j].kind == kind;
        assert(powerup_hits_spec(s1[j], pos) && s1[j].kind == kind);
        assert(timed_hit_spec(s1, pos, kind));
    }
}

/// Whether a ground power-up overlaps any humanoid of the collection.
pub open spec fn picked_by_any_spec(p: PowerUp, humanoids: Seq<Humanoid>) -> bool {
    exists|i: int|
        0 <= i < humanoids.len() && powerup_hits_spec(p, (#[trigger] humanoids[i]).position)
}

/// Two humanoid collections with the same positions overlap the same
/// power-ups.
pub proof fn lemma_picked_by_any_pointwise(p: PowerUp, s1: Seq<Humanoid>, s2: Seq<Humanoid>)
    requires
        s1.len() == s2.len(),
        forall|i: int| 0 <= i < s1.len() ==> (#[trigger] s1[i]).position == s2[i].position,
    ensures
        picked_by_any_spec(p, s1) == picked_by_any_spec(p, s2),
{
    if picked_by_any_spec(p, s1) {
        let i = choose|i: int|
            0 <= i < s1.len() && powerup_hits_spec(p, (#[trigger] s1[i]).position);
        assert(powerup_hits_spec(p, s2[i].position));
        assert(picked_by_any_spec(p, s2));
    }
    if picked_by_any_spec(p, s2) {
        let i = choose|i: int|
            0 <= i < s2.len() && powerup_hits_spec(p, (#[trigger] s2[i]).position);
        assert(powerup_hits_spec(p, s1[i].position));
        assert(picked_by_any_spec(p, s1));
    }
}

/// The power-up after a pickup pass of a humanoid at `body_pos`:
/// marked consumed exactly when it overlaps the humanoid.
pub open spec fn consumed_marked_spec(p: PowerUp, body_pos: Vec2i) -> PowerUp {
    if powerup_hits_spec(p, body_pos) {
        PowerUp { was_consumed: true, ..p }
    } else {
        p
    }
}

/// Whether a power-up survives the expiry pass at instant `now`:
/// neither consumed nor past its ground-availability window.
pub open spec fn ground_keep_spec(p: PowerUp, now: int) -> bool {
    !p.was_consumed && !p.expiration_timer.is_ready_spec(now)
}

/// Owns the power-ups laying on the ground and the spawn timer.
#[derive(Debug)]
pub struct PowerUpManager {
    /// The power-ups laying on the ground.
    pub powerups: Vec<PowerUp>,
    pub spawn_timer: Timer,
}

impl PowerUpManager {
    /// Every ground power-up lies within the simulation's coordinate
    /// range (they spawn inside the arena).
    pub open spec fn wf(self) -> bool {
        forall|i: int|
            0 <= i < self.powerups@.len() ==> (#[trigger] self.powerups@[i]).position.bounded(
                COORD_LIMIT as int,
            )
    }

    pub fn new(now_ms: u64) -> (r: PowerUpManager)
        ensures
            r.wf(),
            r.powerups@.len() == 0,
            r.spawn_timer == (Timer {
                interval_ms: POWER_UP_SPAWN_INTERVAL_MS,
                last_reset_ms: now_ms,
            }),
    {
        PowerUpManager {
            powerups: Vec::new(),
            spawn_timer: Timer::start_now_with_interval(POWER_UP_SPAWN_INTERVAL_MS, now_ms),
        }
    }

    /// Whether the spawn timer has elapsed at instant `now`.
    pub fn can_spawn(&self, now_ms: u64) -> (r: bool)
        ensures
            r == self.spawn_timer.is_ready_spec(now_ms as int),
    {
        self.spawn_timer.is_ready(now_ms)
    }

    /// Spawn one power-up at a random position with a random kind and
    /// a fresh ground-availability window, and restart the spawn timer.
    pub fn spawn_power_up(&mut self, rng: &mut rand::rngs::SmallRng, now_ms: u64)
        requires
            old(self).wf(),
        ensures
            final(self).wf(),
            final(self).spawn_timer == (Timer {
                interval_ms: old(self).spawn_timer.interval_ms,
                last_reset_ms: now_ms,
            }),
            final(self).powerups@.len() == old(self).powerups@.len() + 1,
            forall|i: int|
                0 <= i < old(self).powerups@.len() ==> final(self).powerups@[i] == old(
                    self,
                ).powerups@[i],
            ({
                let p = final(self).powerups@.last();
                &&& !p.was_consumed
                &&& p.flickering == 0
                &&& p.expiration_timer == (Timer {
                    interval_ms: POWER_UP_AVAILABILITY_MS,
                    last_reset_ms: now_ms,
                })
                &&& 0 <= p.position.x < ARENA_SIDE
                &&& 0 <= p.position.y < ARENA_SIDE
            }),
    {
        self.spawn_timer.reset(now_ms);
        let x = crate::rng::sample_below(rng, 800_000);
        let y = crate::rng::sample_below(rng, 800_000);
        let position = Vec2i::new(x as i64, y as i64);
        let kind = match crate::rng::sample_below(rng, 4) {
            0 => PowerUpKind::AdditionalHeart,
            1 => PowerUpKind::FasterShooting,
            2 => PowerUpKind::TripleShooting,
            _ => PowerUpKind::FasterRunning,
        };
        let power_up = PowerUp {
            kind,
            position,
            expiration_timer: Timer::start_now_with_interval(POWER_UP_AVAILABILITY_MS, now_ms),
            was_consumed: false,
            flickering: 0,
        };
        self.powerups.push(power_up);
    }

    /// Check if the given humanoid collided with a power-up laying on
    /// the ground; every overlapping power-up is consumed and applied:
    /// an additional heart adds one heart (the buff slots untouched),
    /// a timed kind records its activation at instant `now`.
    pub fn check_for_collision(&mut self, humanoid: &mut Humanoid, now_ms: u64)
        requires
            old(self).wf(),
            old(humanoid).wf(),
        ensures
            final(self).wf(),
            *final(humanoid) == picked_up_spec(
                *old(humanoid),
                old(self).powerups@,
                now_ms as int,
            ),
            final(self).spawn_timer == old(self).spawn_timer,
            final(self).powerups@.len() == old(self).powerups@.len(),
            forall|i: int|
                0 <= i < old(self).powerups@.len() ==> final(self).powerups@[i]
                    == consumed_marked_spec(
                    #[trigger] old(self).powerups@[i],
                    old(humanoid).position,
                ),
            ({
                let cnt = heart_hits_count_spec(old(self).powerups@, old(humanoid).position);
                final(humanoid).hearts == (if old(humanoid).hearts + cnt <= u32::MAX {
                    old(humanoid).hearts + cnt
                } else {
                    u32::MAX as int
                })
            }),
            final(humanoid).power_ups.slots[0] == (if timed_hit_spec(
                old(self).powerups@,
                old(humanoid).position,
                PowerUpKind::FasterShooting,
            ) {
                Some(now_ms)
            } else {
                old(humanoid).power_ups.slots[0]
            }),
            final(humanoid).power_ups.slots[1] == (if timed_hit_spec(
                old(self).powerups@,
                old(humanoid).position,
                PowerUpKind::FasterRunning,
            ) {
                Some(now_ms)
            } else {
                old(humanoid).power_ups.slots[1]
            }),
            final(humanoid).power_ups.slots[2] == (if timed_hit_spec(
                old(self).powerups@,
                old(humanoid).position,
                PowerUpKind::TripleShooting,
            ) {
                Some(now_ms)
            } else {
                old(humanoid).power_ups.slots[2]
            }),
            final(humanoid).position == old(humanoid).position,
            final(humanoid).velocity == old(humanoid).velocity,
            final(humanoid).direction == old(humanoid).direction,
            final(humanoid).flickering == old(humanoid).flickering,
            final(humanoid).allowed_to_shoot == old(humanoid).allowed_to_shoot,
            final(humanoid).shooting == old(humanoid).shooting,
            final(humanoid).kind == old(humanoid).kind,
            final(humanoid).wf(),
    {
        let ghost all = self.powerups@;
        let ghost h0 = *humanoid;
        let ghost pos = humanoid.position;
        let ghost pred_ah = |p: PowerUp|
            powerup_hits_spec(p, pos) && p.kind == PowerUpKind::AdditionalHeart;
        let rect = humanoid.rectangle();
        let mut i: usize = 0;
        while i < self.powerups.len()
            invariant
                h0.wf(),
                pos == h0.position,
                rect == body_rect_spec(h0.position),
                pred_ah == (|p: PowerUp|
                    powerup_hits_spec(p, pos) && p.kind == PowerUpKind::AdditionalHeart),
                i <= all.len(),
                self.powerups@.len() == all.len(),
                self.spawn_timer == old(self).spawn_timer,
                all == old(self).powerups@,
                forall|j: int|
                    0 <= j < all.len() ==> (#[trigger] all[j]).position.bounded(COORD_LIMIT as int),
                forall|j: int|
                    0 <= j < all.len() ==> (#[trigger] self.powerups@[j]).position == all[j].position,
                forall|j: int| i <= j < all.len() ==> self.powerups@[j] == all[j],
                forall|j: int|
                    0 <= j < i ==> self.powerups@[j] == consumed_marked_spec(
                        #[trigger] all[j],
                        pos,
                    ),
                humanoid.hearts == (if h0.hearts + heart_hits_count_spec(all.take(i as int), pos)
                    <= u32::MAX {
                    h0.hearts + heart_hits_count_spec(all.take(i as int), pos)
                } else {
                    u32::MAX as int
                }),
                humanoid.power_ups.slots[0] == (if timed_hit_spec(
                    all.take(i as int),
                    pos,
                    PowerUpKind::FasterShooting,
                ) {
                    Some(now_ms)
                } else {
                    h0.power_ups.slots[0]
                }),
                humanoid.power_ups.slots[1] == (if timed_hit_spec(
                    all.take(i as int),
                    pos,
                    PowerUpKind::FasterRunning,
                ) {
                    Some(now_ms)
                } else {
                    h0.power_ups.slots[1]
                }),
                humanoid.power_ups.slots[2] == (if timed_hit_spec(
                    all.take(i as int),
                    pos,
                    PowerUpKind::TripleShooting,
                ) {
                    Some(now_ms)
                } else {
                    h0.power_ups.slots[2]
                }),
                humanoid.position == h0.position,
                humanoid.velocity == h0.velocity,
                humanoid.direction == h0.direction,
                humanoid.flickering == h0.flickering,
                humanoid.allowed_to_shoot == h0.allowed_to_shoot,
                humanoid.shooting == h0.shooting,
                humanoid.kind == h0.kind,
            decreases all.len() - i,
        {
            let p = self.powerups[i];
            proof {
                assert(p == all[i as int]);
                assert(all.take(i + 1) =~= all.take(i as int).push(all[i as int]));
                lemma_filter_push(all.take(i as int), p, pred_ah);
                lemma_timed_hit_push(all.take(i as int), p, pos, PowerUpKind::FasterShooting);
                lemma_timed_hit_push(all.take(i as int), p, pos, PowerUpKind::FasterRunning);
                lemma_timed_hit_push(all.take(i as int), p, pos, PowerUpKind::TripleShooting);
            }
            let powerup_rect = Rect::new(p.position.x, p.position.y, POWER_UP_SIDE, POWER_UP_SIDE);
            proof {
                assert(all[i as int].position.bounded(COORD_LIMIT as int));
                assert(powerup_rect.wf());
            }
            if powerup_rect.intersects(&rect) {
                let mut marked = p;
                marked.was_consumed = true;
                self.powerups[i] = marked;
                match p.kind {
                    PowerUpKind::AdditionalHeart => {
                        if humanoid.hearts < u32::MAX {
                            humanoid.hearts = humanoid.hearts + 1;
                        }
                    },
                    power_up => {
                        humanoid.power_ups.activate_power_up(power_up, now_ms);
                    },
                }
            }
            i = i + 1;
        }
        proof {
            assert(all.take(all.len() as int) =~= all);
            let picked = picked_up_spec(h0, all, now_ms as int);
            assert(humanoid.power_ups.slots@ =~= picked.power_ups.slots@);
            assert(humanoid.power_ups.slots == picked.power_ups.slots);
            assert(humanoid.power_ups == picked.power_ups);
            assert(humanoid.hearts == picked.hearts);
            assert(*humanoid == picked);
        }
    }

    /// One power-up step at instant `now`: spawn a fresh power-up if
    /// its spawn timer has elapsed, then let the player pick up whatever
    /// overlaps them — including, possibly, the one just spawned.
    pub fn advance(&mut self, rng: &mut rand::rngs::SmallRng, player: &mut Humanoid, now_ms: u64)
        requires
            old(self).wf(),
            old(player).wf(),
        ensures
            final(self).wf(),
            final(player).wf(),
            ({
                let spawned = old(self).spawn_timer.is_ready_spec(now_ms as int);
                let pos = old(player).position;
                let n = old(self).powerups@.len();
                &&& final(self).spawn_timer == (if spawned {
                    Timer { interval_ms: old(self).spawn_timer.interval_ms, last_reset_ms: now_ms }
                } else {
                    old(self).spawn_timer
                })
                &&& final(self).powerups@.len() == n + (if spawned {
                    1int
                } else {
                    0int
                })
                &&& forall|i: int|
                    0 <= i < n ==> final(self).powerups@[i] == consumed_marked_spec(
                        #[trigger] old(self).powerups@[i],
                        pos,
                    )
                &&& spawned ==> ({
                    let p = final(self).powerups@.last();
                    &&& p.expiration_timer == (Timer {
                        interval_ms: POWER_UP_AVAILABILITY_MS,
                        last_reset_ms: now_ms,
                    })
                    &&& p.flickering == 0
                    &&& 0 <= p.position.x < ARENA_SIDE
                    &&& 0 <= p.position.y < ARENA_SIDE
                    &&& p.was_consumed == powerup_hits_spec(p, pos)
                })
                &&& *final(player) == picked_up_spec(
                    *old(player),
                    final(self).powerups@,
                    now_ms as int,
                )
            }),
    {
        if self.can_spawn(now_ms) {
            self.spawn_power_up(rng, now_ms);
        }
        let ghost mid = self.powerups@;
        let ghost pos = player.position;
        self.check_for_collision(player, now_ms);
        proof {
            let fin = self.powerups@;
            assert(fin.len() == mid.len());
            assert(forall|i: int|
                0 <= i < mid.len() ==> (#[trigger] fin[i]).position == mid[i].position && fin[i].kind
                    == mid[i].kind);
            lemma_picked_up_pointwise(*old(player), mid, fin, now_ms as int);
        }
    }

    /// One ground pass at instant `now`: keep the power-ups that are
    /// neither consumed nor expired, and start the expiry flicker on
    /// the survivors that are close to expiring.
    pub fn update(&mut self, now_ms: u64)
        requires
            old(self).wf(),
        ensures
            final(self).wf(),
            final(self).spawn_timer == old(self).spawn_timer,
            final(self).powerups@ == old(self).powerups@.filter(
                |p: PowerUp| ground_keep_spec(p, now_ms as int),
            ).map_values(|p: PowerUp| p.flicker_checked_spec(now_ms as int)),
    {
        let ghost pred = |p: PowerUp| ground_keep_spec(p, now_ms as int);
        let ghost f = |p: PowerUp| p.flicker_checked_spec(now_ms as int);
        let ghost all = self.powerups@;
        let mut kept: Vec<PowerUp> = Vec::new();
        let mut i: usize = 0;
        while i < self.powerups.len()
            invariant
                i <= all.len(),
                self.powerups@ == all,
                pred == (|p: PowerUp| ground_keep_spec(p, now_ms as int)),
                f == (|p: PowerUp| p.flicker_checked_spec(now_ms as int)),
                kept@ == all.take(i as int).filter(pred).map_values(f),
                forall|j: int|
                    0 <= j < all.len() ==> (#[trigger] all[j]).position.bounded(COORD_LIMIT as int),
                forall|j: int|
                    0 <= j < kept@.len() ==> (#[trigger] kept@[j]).position.bounded(
                        COORD_LIMIT as int,
                    ),
            decreases all.len() - i,
        {
            let mut p = self.powerups[i];
            proof {
                assert(p == all[i as int]);
                assert(all.take(i + 1) =~= all.take(i as int).push(all[i as int]));
                lemma_filter_push(all.take(i as int), p, pred);
                if pred(p) {
                    lemma_map_push(all.take(i as int).filter(pred), p, f);
                }
            }
            let consumed = p.was_consumed;
            let expired = p.is_expired(now_ms);
            if !consumed && !expired {
                p.flicker_if_almost_expiring(now_ms);
                kept.push(p);
            }
            i = i + 1;
        }
        proof {
            assert(all.take(all.len() as int) =~= all);
        }
        self.powerups = kept;
    }
}


/// A humanoid after one pickup pass over the ground power-ups `ps` at
/// instant `now`: one heart per overlapping `AdditionalHeart`
/// (saturating at the type ceiling), each timed kind with an
/// overlapping power-up activated at `now`, and nothing else changed.
pub open spec fn picked_up_spec(h: Humanoid, ps: Seq<PowerUp>, now: int) -> Humanoid {
    let cnt = heart_hits_count_spec(ps, h.position);
    Humanoid {
        hearts: (if h.hearts + cnt <= u32::MAX {
            h.hearts + cnt
        } else {
            u32::MAX as int
        }) as u32,
        power_ups: ActivePowerUps {
            slots: [
                if timed_hit_spec(ps, h.position, PowerUpKind::FasterShooting) {
                    Some(now as u64)
                } else {
                    h.power_ups.slots[0]
                },
                if timed_hit_spec(ps, h.position, PowerUpKind::FasterRunning) {
                    Some(now as u64)
                } else {
                    h.power_ups.slots[1]
                },
                if timed_hit_spec(ps, h.position, PowerUpKind::TripleShooting) {
                    Some(now as u64)
                } else {
                    h.power_ups.slots[2]
                },
            ],
        },
        ..h
    }
}

/// Two power-up sequences equal in positions and kinds produce the
/// same pickup result.
pub proof fn lemma_picked_up_pointwise(h: Humanoid, ps1: Seq<PowerUp>, ps2: Seq<PowerUp>, now: int)
    requires
        ps1.len() == ps2.len(),
        forall|i: int|
            0 <= i < ps1.len() ==> (#[trigger] ps1[i]).position == ps2[i].position && ps1[i].kind
                == ps2[i].kind,
    ensures
        picked_up_spec(h, ps1, now) == picked_up_spec(h, ps2, now),
{
    let pred_ah = |p: PowerUp|
        powerup_hits_spec(p, h.position) && p.kind == PowerUpKind::AdditionalHeart;
    assert(forall|i: int| 0 <= i < ps1.len() ==> pred_ah(#[trigger] ps1[i]) == pred_ah(ps2[i]));
    crate::seqs::lemma_filter_len_pointwise(ps1, ps2, pred_ah);
    lemma_timed_hit_pointwise(ps1, ps2, h.position, PowerUpKind::FasterShooting);
    lemma_timed_hit_pointwise(ps1, ps2, h.position, PowerUpKind::FasterRunning);
    lemma_timed_hit_pointwise(ps1, ps2, h.position, PowerUpKind::TripleShooting);
    assert(picked_up_spec(h, ps1, now).power_ups.slots@ =~= picked_up_spec(
        h,
        ps2,
        now,
    ).power_ups.slots@);
}

} // verus!
