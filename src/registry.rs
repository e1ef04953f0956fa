use vstd::prelude::*;

verus! {

/// Identifier of an entity of the world.
pub type EntityId = u64;

/// A collision transition between two bodies, in no particular order.
#[derive(Clone, Copy, Debug, PartialEq, Eq, Structural)]
pub enum CollisionEvent {
    Started(EntityId, EntityId),
    Stopped(EntityId, EntityId),
}

/// Request that the avatar interacts with an entity.
#[derive(Clone, Copy, Debug, PartialEq, Eq, Structural)]
pub struct InteractionEvent {
    pub entity_1: EntityId,
    pub entity_2: EntityId,
}

/// The interactable entities inside the avatar's sensing volume, in the
/// order they entered (up to swap-removal), and those that left since the
/// highlight was last updated.
pub struct InteractableEntities {
    pub interactables: Vec<EntityId>,
    pub removed: Vec<EntityId>,
}

/// Snapshot of the registry as two sequences.
pub struct RegistryModel {
    pub active: Seq<EntityId>,
    pub just_left: Seq<EntityId>,
}

/// `s` with index `i` removed by moving its last element there.
pub open spec fn swap_removed(s: Seq<EntityId>, i: int) -> Seq<EntityId> {
    s.update(i, s.last()).drop_last()
}

/// The member of the pair `(a, b)` that is not `sensor`, where one is.
pub open spec fn other_member(sensor: EntityId, a: EntityId, b: EntityId) -> Option<EntityId> {
    if a == sensor {
        Some(b)
    } else if b == sensor {
        Some(a)
    } else {
        None
    }
}

/// The registry after one collision event, seen from `sensor`, where the
/// entities tagged interactable are `tagged`.
pub open spec fn after_event(
    m: RegistryModel,
    sensor: EntityId,
    tagged: Seq<EntityId>,
    ev: CollisionEvent,
) -> RegistryModel {
    match ev {
        CollisionEvent::Started(a, b) => match other_member(sensor, a, b) {
            Some(o) => if tagged.contains(o) && !m.active.contains(o) {
                RegistryModel { active: m.active.push(o), just_left: m.just_left }
            } else {
                m
            },
            None => m,
        },
        CollisionEvent::Stopped(a, b) => match other_member(sensor, a, b) {
            Some(o) => if m.active.contains(o) {
                RegistryModel {
                    active: swap_removed(m.active, m.active.index_of(o)),
                    just_left: m.just_left.push(o),
                }
            } else {
                m
            },
            None => m,
        },
    }
}

/// The registry after the events `evs`, in order.
pub open spec fn after_events(
    m: RegistryModel,
    sensor: EntityId,
    tagged: Seq<EntityId>,
    evs: Seq<CollisionEvent>,
) -> RegistryModel
    decreases evs.len(),
{
    if evs.len() == 0 {
        m
    } else {
        after_event(after_events(m, sensor, tagged, evs.drop_last()), sensor, tagged, evs.last())
    }
}

/// The entity that an interaction press targets: the first one registered.
pub open spec fn interaction_target(active: Seq<EntityId>) -> Option<EntityId> {
    if active.len() == 0 {
        None
    } else {
        Some(active[0])
    }
}

impl InteractableEntities {
    pub open spec fn model(&self) -> RegistryModel {
        RegistryModel { active: self.interactables@, just_left: self.removed@ }
    }

    /// No entity is registered twice.
    pub open spec fn wf(&self) -> bool {
        self.interactables@.no_duplicates()
    }

    pub fn new() -> (r: Self)
        ensures
            r.wf(),
            r.interactables@ == Seq::<EntityId>::empty(),
            r.removed@ == Seq::<EntityId>::empty(),
    {
        InteractableEntities { interactables: Vec::new(), removed: Vec::new() }
    }

    /// Position of `e` among the registered entities.
    fn position(&self, e: EntityId) -> (r: Option<usize>)
        requires
            self.wf(),
        ensures
            match r {
                Some(i) => i < self.interactables@.len() && self.interactables@[i as int] == e
                    && self.interactables@.index_of(e) == i,
                None => !self.interactables@.contains(e),
            },
    {
        let mut i: usize = 0;
        while i < self.interactables.len()
            invariant
                self.wf(),
                i <= self.interactables@.len(),
                forall|j: int| 0 <= j < i ==> self.interactables@[j] != e,
            decreases self.interactables@.len() - i,
        {
            if self.interactables[i] == e {
                proof {
                    let k = self.interactables@.index_of(e);
                    assert(self.interactables@.contains(e));
                    assert(0 <= k < self.interactables@.len() && self.interactables@[k] == e);
                    if k != i {
                        assert(self.interactables@[k] != self.interactables@[i as int]);
                    }
                }
                return Some(i);
            }
            i = i + 1;
        }
        None
    }

    /// Applies one collision event seen from the avatar's `sensor`; `tagged`
    /// lists the entities tagged interactable.
    pub fn handle_collision(&mut self, sensor: EntityId, tagged: &Vec<EntityId>, ev: CollisionEvent)
        requires
            old(self).wf(),
        ensures
            final(self).wf(),
            final(self).model() == after_event(old(self).model(), sensor, tagged@, ev),
    {
        match ev {
            CollisionEvent::Started(a, b) => {
                let other = if a == sensor {
                    b
                } else if b == sensor {
                    a
                } else {
                    return ;
                };
                if contains_id(tagged, other) && self.position(other).is_none() {
                    self.interactables.push(other);
                    proof {
                        assert forall|i: int, j: int|
                            0 <= i < j < self.interactables@.len() implies self.interactables@[i]
                            != self.interactables@[j] by {
                            if j == self.interactables@.len() - 1 {
                                assert(old(self).interactables@[i] == self.interactables@[i]);
                            }
                        }
                    }
                }
            },
            CollisionEvent::Stopped(a, b) => {
                let other = if a == sensor {
                    b
                } else if b == sensor {
                    a
                } else {
                    return ;
                };
                if let Some(index) = self.position(other) {
                    let ghost s = self.interactables@;
                    let gone = self.interactables.swap_remove(index);
                    self.removed.push(gone);
                    proof {
                        assert(self.interactables@ =~= swap_removed(s, index as int));
                        let n = s.len();
                        assert forall|i: int, j: int|
                            0 <= i < j < self.interactables@.len() implies self.interactables@[i]
                            != self.interactables@[j] by {
                            let si = if i == index { n - 1 } else { i };
                            let sj = if j == index { n - 1 } else { j };
                            assert(self.interactables@[i] == s[si]);
                            assert(self.interactables@[j] == s[sj]);
                        }
                    }
                }
            },
        }
    }

    /// Drains the collision events of one tick, in order, seen from the
    /// avatar's sensor; without a sensor nothing changes.
    pub fn update_interactables(
        &mut self,
        sensor: Option<EntityId>,
        tagged: &Vec<EntityId>,
        events: &Vec<CollisionEvent>,
    )
        requires
            old(self).wf(),
        ensures
            final(self).wf(),
            final(self).model() == match sensor {
                Some(s) => after_events(old(self).model(), s, tagged@, events@),
                None => old(self).model(),
            },
    {
        let sensor = match sensor {
            Some(s) => s,
            None => {
                return ;
            },
        };
        let mut i: usize = 0;
        while i < events.len()
            invariant
                i <= events@.len(),
                self.wf(),
                self.model() == after_events(
                    old(self).model(),
                    sensor,
                    tagged@,
                    events@.subrange(0, i as int),
                ),
            decreases events@.len() - i,
        {
            self.handle_collision(sensor, tagged, events[i]);
            proof {
                assert(events@.subrange(0, i + 1).drop_last() =~= events@.subrange(0, i as int));
            }
            i = i + 1;
        }
        proof {
            assert(events@.subrange(0, events@.len() as int) =~= events@);
        }
    }

    /// Ends a highlight update: returns the entities whose highlight is to be
    /// set and those whose highlight is to be cleared, and forgets the latter.
    pub fn highlight_interactables(&mut self) -> (r: (Vec<EntityId>, Vec<EntityId>))
        requires
            old(self).wf(),
        ensures
            final(self).wf(),
            r.0@ == old(self).interactables@,
            r.1@ == old(self).removed@,
            final(self).interactables@ == old(self).interactables@,
            final(self).removed@ == Seq::<EntityId>::empty(),
    {
        let lit = self.interactables.clone();
        let cleared = self.removed.clone();
        self.removed.clear();
        proof {
            assert(lit@ =~= old(self).interactables@);
            assert(cleared@ =~= old(self).removed@);
        }
        (lit, cleared)
    }

    /// The interaction of `player` for a press of the interact action.
    pub open spec fn interaction_for(&self, player: EntityId, just_pressed: bool) -> Option<
        InteractionEvent,
    > {
        if just_pressed {
            match interaction_target(self.interactables@) {
                Some(e) => Some(InteractionEvent { entity_1: player, entity_2: e }),
                None => None,
            }
        } else {
            None
        }
    }

    /// The interaction event for a press of the interact action by `player`:
    /// aimed at the earliest registered entity, none when nothing is in range.
    pub fn interact(&self, player: EntityId, just_pressed: bool) -> (r: Option<InteractionEvent>)
        ensures
            r == self.interaction_for(player, just_pressed),
    {
        if !just_pressed {
            return None;
        }
        if self.interactables.len() == 0 {
            None
        } else {
            Some(InteractionEvent { entity_1: player, entity_2: self.interactables[0] })
        }
    }
}

/// An interactable entity entering the sensor once is registered exactly
/// once; its leaving removes it, records it as just left, and a repeated
/// leave changes nothing more.
pub proof fn lemma_enter_then_leave(
    m: RegistryModel,
    sensor: EntityId,
    tagged: Seq<EntityId>,
    e: EntityId,
)
    requires
        m.active.no_duplicates(),
        tagged.contains(e),
        !m.active.contains(e),
    ensures
        ({
            let m1 = after_event(m, sensor, tagged, CollisionEvent::Started(sensor, e));
            let m2 = after_event(m1, sensor, tagged, CollisionEvent::Stopped(e, sensor));
            &&& m1.active == m.active.push(e)
            &&& m1.active.no_duplicates()
            &&& m1.just_left == m.just_left
            &&& !m2.active.contains(e)
            &&& m2.active.len() == m.active.len()
            &&& m2.just_left == m.just_left.push(e)
            &&& after_event(m2, sensor, tagged, CollisionEvent::Stopped(e, sensor)) == m2
        }),
{
    let m1 = after_event(m, sensor, tagged, CollisionEvent::Started(sensor, e));
    let s = m1.active;
    assert(s[s.len() - 1] == e);
    assert(s.contains(e));
    assert forall|i: int, j: int| 0 <= i < j < s.len() implies s[i] != s[j] by {
        if j == s.len() - 1 {
            assert(m.active[i] == s[i]);
        }
    }
    let k = s.index_of(e);
    let r = swap_removed(s, k);
    assert forall|j: int| 0 <= j < r.len() implies r[j] != e by {
        if j == k {
            assert(r[j] == s[s.len() - 1]);
        } else {
            assert(r[j] == s[j]);
        }
    }
}

fn contains_id(v: &Vec<EntityId>, e: EntityId) -> (r: bool)
    ensures
        r == v@.contains(e),
{
    let mut i: usize = 0;
    while i < v.len()
        invariant
            i <= v@.len(),
            forall|j: int| 0 <= j < i ==> v@[j] != e,
        decreases v@.len() - i,
    {
        if v[i] == e {
            return true;
        }
        i = i + 1;
    }
    false
}

} // verus!
