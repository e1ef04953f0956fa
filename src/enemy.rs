use vstd::prelude::*;
use rand::rngs::StdRng;
use crate::chance::draw_in;
use crate::space::{Position, WORLD_LIMIT};
use crate::timer::{Timer, TimerMode};

verus! {

/// First wander period of a new agent: three seconds.
pub const FIRST_MOVE_NANOS: u64 = 3_000_000_000;

/// Shortest wander period after the first: five seconds.
pub const MIN_MOVE_NANOS: u64 = 5_000_000_000;

/// Bound (exclusive) of the wander periods after the first: six seconds.
pub const MAX_MOVE_NANOS: u64 = 6_000_000_000;

/// Largest horizontal offset, per axis, of a wander target: 2.5 units.
pub const WANDER_REACH: i64 = 2500;

/// Height at which wander targets are pinned: 0.2 units.
pub const GROUND_HEIGHT: i64 = 200;

/// Distance at which a target counts as reached: 0.1 units.
pub const ARRIVAL_DISTANCE: i64 = 100;

/// Shortest spawn distance from the ring's centre: 2 units.
pub const MIN_SPAWN_RADIUS: i64 = 2000;

/// Bound (exclusive) of the spawn distance from the ring's centre: 7 units.
pub const MAX_SPAWN_RADIUS: i64 = 7000;

/// Marker of hostile agents.
#[derive(Clone, Copy, Debug, PartialEq, Eq, Structural)]
pub struct Enemy;

/// Wander state of one agent: idle without a target, seeking with one.
#[derive(Clone, Copy, Debug)]
pub struct EnemyAI {
    pub move_timer: Timer,
    pub target_position: Option<Position>,
}

/// What the agent's body is to do this tick.
#[derive(Clone, Copy, Debug, PartialEq, Eq, Structural)]
pub enum Steering {
    /// Stand still: the velocity is zero.
    Halt,
    /// Move along this offset, normalised and scaled by the speed.
    Toward(Position),
}

/// The wander target chosen at `p` with horizontal offsets `dx` and `dz`.
pub open spec fn wander_target(p: Position, dx: i64, dz: i64) -> Position {
    Position { x: (p.x + dx) as i64, y: GROUND_HEIGHT, z: (p.z + dz) as i64 }
}

/// Every coordinate of `t` lies within wander reach of the world.
pub open spec fn near_world(t: Position) -> bool {
    let b = WORLD_LIMIT + WANDER_REACH;
    -b <= t.x <= b && -b <= t.y <= b && -b <= t.z <= b
}

/// `t` lies within `WANDER_REACH` of `p` along both horizontal axes and at
/// ground height.
pub open spec fn within_reach(p: Position, t: Position) -> bool {
    -WANDER_REACH <= t.x - p.x <= WANDER_REACH && -WANDER_REACH <= t.z - p.z <= WANDER_REACH
        && t.y == GROUND_HEIGHT
}

impl EnemyAI {
    /// The move timer is a valid repeating timer, and a target lies within
    /// reach of the world.
    pub open spec fn wf(&self) -> bool {
        &&& self.move_timer.wf()
        &&& self.move_timer.mode == TimerMode::Repeating
        &&& self.target_position matches Some(t) ==> near_world(t)
    }

    /// An idle agent whose first move comes after three seconds.
    pub fn new() -> (r: Self)
        ensures
            r.wf(),
            r.move_timer.duration == FIRST_MOVE_NANOS,
            r.move_timer.elapsed == 0,
            r.target_position is None,
    {
        EnemyAI {
            move_timer: Timer::from_nanos(FIRST_MOVE_NANOS, TimerMode::Repeating),
            target_position: None,
        }
    }

    /// Ages the move timer by `delta` nanoseconds for an agent at
    /// `position`. When it fires, the target becomes `position` moved by
    /// `dx` and `dz` at ground height, and the next period is `next_period`.
    pub fn update_move_timer(
        &mut self,
        position: Position,
        delta: u64,
        dx: i64,
        dz: i64,
        next_period: u64,
    )
        requires
            old(self).wf(),
            -WANDER_REACH <= dx <= WANDER_REACH,
            -WANDER_REACH <= dz <= WANDER_REACH,
            position.in_world(),
            next_period > 0,
        ensures
            final(self).wf(),
            ({
                let t = old(self).move_timer.ticked(delta);
                if t.just_finished {
                    &&& final(self).target_position == Some(wander_target(position, dx, dz))
                    &&& final(self).move_timer == t.with_duration(next_period)
                } else {
                    &&& final(self).target_position == old(self).target_position
                    &&& final(self).move_timer == t
                }
            }),
    {
        self.move_timer.tick(delta);
        if self.move_timer.just_finished {
            self.target_position = Some(
                Position { x: position.x + dx, y: GROUND_HEIGHT, z: position.z + dz },
            );
            self.move_timer.set_duration(next_period);
        }
    }

    /// Ages the move timer as `update_move_timer` does, drawing the offsets
    /// and the next period from `rng`.
    pub fn wander(&mut self, rng: &mut StdRng, position: Position, delta: u64)
        requires
            old(self).wf(),
            position.in_world(),
        ensures
            final(self).wf(),
            ({
                let t = old(self).move_timer.ticked(delta);
                if t.just_finished {
                    &&& final(self).target_position matches Some(p) && within_reach(position, p)
                    &&& MIN_MOVE_NANOS <= final(self).move_timer.duration < MAX_MOVE_NANOS
                    &&& final(self).move_timer == t.with_duration(final(self).move_timer.duration)
                } else {
                    &&& final(self).target_position == old(self).target_position
                    &&& final(self).move_timer == t
                }
            }),
    {
        let mut t = self.move_timer;
        t.tick(delta);
        if t.just_finished {
            let dx = draw_in(rng, -WANDER_REACH, WANDER_REACH + 1);
            let dz = draw_in(rng, -WANDER_REACH, WANDER_REACH + 1);
            let next = draw_in(rng, MIN_MOVE_NANOS as i64, MAX_MOVE_NANOS as i64);
            self.update_move_timer(position, delta, dx, dz, next as u64);
        } else {
            self.move_timer = t;
        }
    }

    /// Steering for an agent at `position`: halt while idle; on arrival
    /// within 0.1 units, drop the target and halt; else head for it.
    pub fn move_enemy(&mut self, position: Position) -> (r: Steering)
        requires
            old(self).wf(),
            position.in_world(),
        ensures
            final(self).wf(),
            final(self).move_timer == old(self).move_timer,
            match old(self).target_position {
                None => r == Steering::Halt && final(self).target_position is None,
                Some(t) => if position.dist_sq(t) <= ARRIVAL_DISTANCE * ARRIVAL_DISTANCE {
                    r == Steering::Halt && final(self).target_position is None
                } else {
                    r == Steering::Toward(
                        Position {
                            x: (t.x - position.x) as i64,
                            y: (t.y - position.y) as i64,
                            z: (t.z - position.z) as i64,
                        },
                    ) && final(self).target_position == old(self).target_position
                },
            },
    {
        match self.target_position {
            None => Steering::Halt,
            Some(t) => {
                if arrived(position, t) {
                    self.target_position = None;
                    Steering::Halt
                } else {
                    Steering::Toward(
                        Position { x: t.x - position.x, y: t.y - position.y, z: t.z - position.z },
                    )
                }
            },
        }
    }
}

/// The move timer of a fresh agent fires on a tick of three seconds or more,
/// and on a shorter one only counts the time; on firing, `wander` gives the
/// agent a target within reach and a next period in `[5 s, 6 s)`.
pub proof fn lemma_first_move_fires_at_three_seconds(ai: EnemyAI, delta: u64)
    requires
        ai.wf(),
        ai.move_timer.elapsed == 0,
        ai.move_timer.duration == FIRST_MOVE_NANOS,
    ensures
        ai.move_timer.ticked(delta).just_finished == (delta >= FIRST_MOVE_NANOS),
        delta < FIRST_MOVE_NANOS ==> ai.move_timer.ticked(delta).elapsed == delta,
{
    if delta < FIRST_MOVE_NANOS {
        vstd::arithmetic::div_mod::lemma_small_mod(delta as nat, FIRST_MOVE_NANOS as nat);
    }
}

fn arrived(p: Position, t: Position) -> (r: bool)
    ensures
        r == (p.dist_sq(t) <= ARRIVAL_DISTANCE * ARRIVAL_DISTANCE),
{
    let dx: i128 = t.x as i128 - p.x as i128;
    let dy: i128 = t.y as i128 - p.y as i128;
    let dz: i128 = t.z as i128 - p.z as i128;
    let a: i128 = ARRIVAL_DISTANCE as i128;
    if dx > a || dx < -a || dy > a || dy < -a || dz > a || dz < -a {
        proof {
            let (ix, iy, iz) = (dx as int, dy as int, dz as int);
            assert(ix * ix >= 0 && iy * iy >= 0 && iz * iz >= 0) by (nonlinear_arith);
            assert((ix > 100 || ix < -100) ==> ix * ix > 10000) by (nonlinear_arith);
            assert((iy > 100 || iy < -100) ==> iy * iy > 10000) by (nonlinear_arith);
            assert((iz > 100 || iz < -100) ==> iz * iz > 10000) by (nonlinear_arith);
        }
        false
    } else {
        assert(0 <= dx * dx <= 10000) by (nonlinear_arith)
            requires
                -100 <= dx <= 100,
        ;
        assert(0 <= dy * dy <= 10000) by (nonlinear_arith)
            requires
                -100 <= dy <= 100,
        ;
        assert(0 <= dz * dz <= 10000) by (nonlinear_arith)
            requires
                -100 <= dz <= 100,
        ;
        dx * dx + dy * dy + dz * dz <= a * a
    }
}

/// A spawn distance from the ring's centre, drawn from `rng`.
pub fn spawn_radius(rng: &mut StdRng) -> (r: i64)
    ensures
        MIN_SPAWN_RADIUS <= r < MAX_SPAWN_RADIUS,
{
    draw_in(rng, MIN_SPAWN_RADIUS, MAX_SPAWN_RADIUS)
}

} // verus!
