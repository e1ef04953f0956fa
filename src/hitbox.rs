use vstd::prelude::*;
use crate::registry::EntityId;
use crate::space::Position;
use crate::timer::{after_ticks, lemma_once_finishes_at_duration, total, Timer, TimerMode};

verus! {

/// Lifetime of a melee hitbox: half a second.
pub const MELEE_LIFETIME_NANOS: u64 = 500_000_000;

/// Collision geometry of a hitbox, in millimetres.
#[derive(Clone, Copy, Debug, PartialEq, Eq, Structural)]
pub enum Shape {
    Cuboid { half_x: u32, half_y: u32, half_z: u32 },
    Ball { radius: u32 },
}

impl Shape {
    /// The shape encloses some volume.
    pub open spec fn has_volume(&self) -> bool {
        match *self {
            Shape::Cuboid { half_x, half_y, half_z } => half_x > 0 && half_y > 0 && half_z > 0,
            Shape::Ball { radius } => radius > 0,
        }
    }
}

/// Which entities a hitbox is meant to hit; resolved by the collision layer.
#[derive(Clone, Copy, Debug, PartialEq, Eq, Structural)]
pub enum Target {
    Single(EntityId),
    Enemies,
    All,
}

/// A transient attack volume at a fixed position.
#[derive(Clone, Copy, Debug)]
pub struct Hitbox {
    pub sender: EntityId,
    pub shape: Shape,
    pub position: Position,
    pub target: Target,
    pub lifetime: Timer,
}

/// Request to put a hitbox into the world.
#[derive(Clone, Copy, Debug)]
pub struct SpawnHitboxEvent(pub Hitbox);

/// Why a spawn request was turned down.
#[derive(Clone, Copy, Debug, PartialEq, Eq, Structural)]
pub enum HitboxError {
    /// The shape encloses no volume.
    EmptyShape,
}

/// The hitboxes alive in the world, oldest first.
pub struct Hitboxes {
    pub live: Vec<Hitbox>,
}

/// The hitboxes whose lifetime has not finished, in order.
pub open spec fn unfinished(s: Seq<Hitbox>) -> Seq<Hitbox>
    decreases s.len(),
{
    if s.len() == 0 {
        s
    } else if s.last().lifetime.finished {
        unfinished(s.drop_last())
    } else {
        unfinished(s.drop_last()).push(s.last())
    }
}

/// The hitboxes `s`, each aged by `delta` nanoseconds.
pub open spec fn aged(s: Seq<Hitbox>, delta: u64) -> Seq<Hitbox> {
    Seq::new(s.len(), |i: int| Hitbox { lifetime: s[i].lifetime.ticked(delta), ..s[i] })
}

/// The live hitboxes after ticks of `deltas` nanoseconds, in order.
pub open spec fn live_after(s: Seq<Hitbox>, deltas: Seq<u64>) -> Seq<Hitbox>
    decreases deltas.len(),
{
    if deltas.len() == 0 {
        s
    } else {
        unfinished(aged(live_after(s, deltas.drop_last()), deltas.last()))
    }
}

/// A lone fresh hitbox stays in the world, aged, while the time handed to
/// the ticks is below its lifetime, and is gone from the tick at which that
/// time reaches its lifetime on.
pub proof fn lemma_hitbox_lives_its_lifetime(h: Hitbox, deltas: Seq<u64>)
    requires
        h.wf(),
        h.lifetime.elapsed == 0,
    ensures
        live_after(seq![h], deltas) == if total(deltas) >= h.lifetime.duration {
            Seq::<Hitbox>::empty()
        } else {
            seq![Hitbox { lifetime: after_ticks(h.lifetime, deltas), ..h }]
        },
    decreases deltas.len(),
{
    lemma_once_finishes_at_duration(h.lifetime, deltas);
    if deltas.len() > 0 {
        let prefix = deltas.drop_last();
        let last = deltas.last();
        lemma_hitbox_lives_its_lifetime(h, prefix);
        lemma_once_finishes_at_duration(h.lifetime, prefix);
        let before = live_after(seq![h], prefix);
        if total(prefix) >= h.lifetime.duration {
            assert(aged(before, last) =~= Seq::<Hitbox>::empty());
        } else {
            let h1 = Hitbox { lifetime: after_ticks(h.lifetime, prefix), ..h };
            let h2 = Hitbox { lifetime: after_ticks(h.lifetime, deltas), ..h };
            assert(before == seq![h1]);
            assert(aged(before, last) =~= seq![h2]);
            assert(seq![h2].drop_last() =~= Seq::<Hitbox>::empty());
            assert(unfinished(Seq::<Hitbox>::empty()) == Seq::<Hitbox>::empty());
            assert(seq![h2].last() == h2);
            if !h2.lifetime.finished {
                assert(Seq::<Hitbox>::empty().push(h2) =~= seq![h2]);
                assert(unfinished(seq![h2]) == seq![h2]);
            } else {
                assert(unfinished(seq![h2]) == Seq::<Hitbox>::empty());
            }
        }
    } else {
        assert(after_ticks(h.lifetime, deltas) == h.lifetime);
        assert((Hitbox { lifetime: h.lifetime, ..h }) == h);
    }
}

/// The hitboxes of the requests `evs` whose shape has volume, in order.
pub open spec fn accepted(evs: Seq<SpawnHitboxEvent>) -> Seq<Hitbox>
    decreases evs.len(),
{
    if evs.len() == 0 {
        Seq::empty()
    } else if evs.last().0.shape.has_volume() {
        accepted(evs.drop_last()).push(evs.last().0)
    } else {
        accepted(evs.drop_last())
    }
}

/// The hitboxes whose lifetime has finished, in order.
pub open spec fn finished(s: Seq<Hitbox>) -> Seq<Hitbox>
    decreases s.len(),
{
    if s.len() == 0 {
        s
    } else if s.last().lifetime.finished {
        finished(s.drop_last()).push(s.last())
    } else {
        finished(s.drop_last())
    }
}

impl Hitbox {
    /// The lifetime timer is a valid one-shot timer.
    pub open spec fn wf(&self) -> bool {
        self.lifetime.wf() && self.lifetime.mode == TimerMode::Once
    }

    /// The melee hitbox of an attack by `sender` at `position`.
    pub open spec fn melee_spec(sender: EntityId, position: Position) -> Hitbox {
        Hitbox {
            sender,
            shape: Shape::Cuboid { half_x: 200, half_y: 500, half_z: 200 },
            position,
            target: Target::Enemies,
            lifetime: Timer {
                duration: MELEE_LIFETIME_NANOS,
                elapsed: 0,
                mode: TimerMode::Once,
                finished: false,
                just_finished: false,
            },
        }
    }

    /// The melee hitbox of an attack by `sender` at `position`: a
    /// 0.4 x 1.0 x 0.4 cuboid aimed at enemies that lasts half a second.
    pub fn melee(sender: EntityId, position: Position) -> (r: Hitbox)
        ensures
            r.wf(),
            r == Hitbox::melee_spec(sender, position),
    {
        Hitbox {
            sender,
            shape: Shape::Cuboid { half_x: 200, half_y: 500, half_z: 200 },
            position,
            target: Target::Enemies,
            lifetime: Timer::from_nanos(MELEE_LIFETIME_NANOS, TimerMode::Once),
        }
    }
}

impl Hitboxes {
    pub open spec fn wf(&self) -> bool {
        forall|i: int| 0 <= i < self.live@.len() ==> (#[trigger] self.live@[i]).wf()
    }

    pub fn new() -> (r: Self)
        ensures
            r.wf(),
            r.live@ == Seq::<Hitbox>::empty(),
    {
        Hitboxes { live: Vec::new() }
    }

    /// Puts the requested hitbox into the world, unless its shape has no
    /// volume.
    pub fn spawn_hitbox(&mut self, ev: SpawnHitboxEvent) -> (r: Result<(), HitboxError>)
        requires
            old(self).wf(),
            ev.0.wf(),
        ensures
            final(self).wf(),
            r is Ok <==> ev.0.shape.has_volume(),
            r is Ok ==> final(self).live@ == old(self).live@.push(ev.0),
            r is Err ==> r == Err::<(), HitboxError>(HitboxError::EmptyShape) && final(self).live@
                == old(self).live@,
    {
        let ok = match ev.0.shape {
            Shape::Cuboid { half_x, half_y, half_z } => half_x > 0 && half_y > 0 && half_z > 0,
            Shape::Ball { radius } => radius > 0,
        };
        if !ok {
            return Err(HitboxError::EmptyShape);
        }
        self.live.push(ev.0);
        proof {
            assert forall|i: int| 0 <= i < self.live@.len() implies (#[trigger] self.live@[i]).wf() by {
                if i < old(self).live@.len() {
                    assert(old(self).live@[i] == self.live@[i]);
                }
            }
        }
        Ok(())
    }

    /// Handles the spawn requests of one tick, in order: each one with a
    /// shape of some volume adds its own hitbox; returns how many were
    /// turned down.
    pub fn spawn_hitboxes(&mut self, events: &Vec<SpawnHitboxEvent>) -> (r: usize)
        requires
            old(self).wf(),
            forall|i: int| 0 <= i < events@.len() ==> (#[trigger] events@[i]).0.wf(),
        ensures
            final(self).wf(),
            final(self).live@ == old(self).live@ + accepted(events@),
            r == events@.len() - accepted(events@).len(),
    {
        let mut refused: usize = 0;
        let mut i: usize = 0;
        while i < events.len()
            invariant
                i <= events@.len(),
                forall|j: int| 0 <= j < events@.len() ==> (#[trigger] events@[j]).0.wf(),
                self.wf(),
                self.live@ == old(self).live@ + accepted(events@.subrange(0, i as int)),
                refused == i - accepted(events@.subrange(0, i as int)).len(),
            decreases events@.len() - i,
        {
            proof {
                assert(events@.subrange(0, i + 1).drop_last() =~= events@.subrange(0, i as int));
                lemma_accepted_len(events@.subrange(0, i as int));
            }
            match self.spawn_hitbox(events[i]) {
                Ok(()) => {
                    assert(self.live@ =~= old(self).live@ + accepted(events@.subrange(0, i + 1)));
                },
                Err(_) => {
                    refused = refused + 1;
                },
            }
            i = i + 1;
        }
        proof {
            assert(events@.subrange(0, i as int) =~= events@);
        }
        refused
    }

    /// Advances every live hitbox's lifetime by `delta` nanoseconds.
    pub fn update_hitbox_timer(&mut self, delta: u64)
        requires
            old(self).wf(),
        ensures
            final(self).wf(),
            final(self).live@.len() == old(self).live@.len(),
            forall|i: int|
                0 <= i < old(self).live@.len() ==> #[trigger] final(self).live@[i] == (Hitbox {
                    lifetime: old(self).live@[i].lifetime.ticked(delta),
                    ..old(self).live@[i]
                }),
    {
        let mut i: usize = 0;
        while i < self.live.len()
            invariant
                self.live@.len() == old(self).live@.len(),
                i <= self.live@.len(),
                forall|j: int| 0 <= j < self.live@.len() ==> (#[trigger] self.live@[j]).wf(),
                forall|j: int|
                    0 <= j < i ==> #[trigger] self.live@[j] == (Hitbox {
                        lifetime: old(self).live@[j].lifetime.ticked(delta),
                        ..old(self).live@[j]
                    }),
                forall|j: int| i <= j < self.live@.len() ==> #[trigger] self.live@[j] == old(self).live@[j],
            decreases self.live@.len() - i,
        {
            let mut h = self.live[i];
            h.lifetime.tick(delta);
            self.live.set(i, h);
            i = i + 1;
        }
    }

    /// Removes the hitboxes whose lifetime has finished and returns them.
    pub fn despawn_hitbox(&mut self) -> (r: Vec<Hitbox>)
        requires
            old(self).wf(),
        ensures
            final(self).wf(),
            final(self).live@ == unfinished(old(self).live@),
            r@ == finished(old(self).live@),
    {
        let mut kept: Vec<Hitbox> = Vec::new();
        let mut gone: Vec<Hitbox> = Vec::new();
        let mut i: usize = 0;
        while i < self.live.len()
            invariant
                i <= self.live@.len(),
                forall|j: int| 0 <= j < self.live@.len() ==> (#[trigger] self.live@[j]).wf(),
                forall|j: int| 0 <= j < kept@.len() ==> (#[trigger] kept@[j]).wf(),
                kept@ == unfinished(self.live@.subrange(0, i as int)),
                gone@ == finished(self.live@.subrange(0, i as int)),
            decreases self.live@.len() - i,
        {
            let h = self.live[i];
            proof {
                assert(self.live@.subrange(0, i + 1).drop_last() =~= self.live@.subrange(0, i as int));
            }
            if h.lifetime.finished {
                gone.push(h);
            } else {
                kept.push(h);
            }
            i = i + 1;
        }
        proof {
            assert(self.live@.subrange(0, self.live@.len() as int) =~= self.live@);
        }
        self.live = kept;
        gone
    }

    /// One tick of the hitboxes: ages them all by `delta` nanoseconds, then
    /// removes those whose lifetime has finished, which are returned.
    pub fn tick(&mut self, delta: u64) -> (r: Vec<Hitbox>)
        requires
            old(self).wf(),
        ensures
            final(self).wf(),
            final(self).live@ == unfinished(aged(old(self).live@, delta)),
            r@ == finished(aged(old(self).live@, delta)),
    {
        self.update_hitbox_timer(delta);
        let ghost after = self.live@;
        let r = self.despawn_hitbox();
        proof {
            assert(after =~= aged(old(self).live@, delta));
        }
        r
    }
}

proof fn lemma_accepted_len(evs: Seq<SpawnHitboxEvent>)
    ensures
        accepted(evs).len() <= evs.len(),
    decreases evs.len(),
{
    if evs.len() > 0 {
        lemma_accepted_len(evs.drop_last());
    }
}

} // verus!
