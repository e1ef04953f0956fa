use vstd::prelude::*;
use rand::rngs::StdRng;
use crate::chance::draw_in;
use crate::building::Inventory;
use crate::health::{clamp, Health};
use crate::registry::{EntityId, InteractionEvent};

verus! {

/// Health of a new tree.
pub const TREE_HEALTH: i32 = 10;

/// Damage that one interaction deals to a tree.
pub const HARVEST_DAMAGE: i32 = 3;

/// Wood gained when a tree is felled.
pub const WOOD_PER_TREE: u32 = 10;

/// Shortest spawn distance of a tree from the origin: 2 units.
pub const MIN_TREE_RADIUS: i64 = 2000;

/// Bound (exclusive) of the spawn distance of a tree from the origin: 12 units.
pub const MAX_TREE_RADIUS: i64 = 12000;

/// A tree's spawn distance from the origin, drawn from `rng`.
pub fn tree_spawn_radius(rng: &mut StdRng) -> (r: i64)
    ensures
        MIN_TREE_RADIUS <= r < MAX_TREE_RADIUS,
{
    draw_in(rng, MIN_TREE_RADIUS, MAX_TREE_RADIUS)
}

/// A harvestable entity with its health.
#[derive(Clone, Copy, Debug)]
pub struct Tree {
    pub entity: EntityId,
    pub health: Health,
}

/// Snapshot of a tree: its entity, health bound and health.
pub struct TreeModel {
    pub entity: EntityId,
    pub max: int,
    pub current: int,
}

/// The trees of the world.
pub struct Forest {
    pub trees: Vec<Tree>,
}

/// Index of the first tree of `s` that is `e`, or `s.len()` where none is.
pub open spec fn tree_index(s: Seq<TreeModel>, e: EntityId) -> int
    decreases s.len(),
{
    if s.len() == 0 {
        0
    } else if s[0].entity == e {
        0
    } else {
        1 + tree_index(s.drop_first(), e)
    }
}

/// `wood` plus the reward for a felled tree, saturating at `u32::MAX`.
pub open spec fn rewarded(wood: int) -> int {
    if wood + WOOD_PER_TREE > u32::MAX {
        u32::MAX as int
    } else {
        wood + WOOD_PER_TREE
    }
}

/// Trees and wood after an interaction aimed at `e`: the first tree that is
/// `e` takes the harvest damage, and a tree that dies of it yields wood.
pub open spec fn after_hit(s: Seq<TreeModel>, wood: int, e: EntityId) -> (Seq<TreeModel>, int) {
    let i = tree_index(s, e);
    if i < s.len() {
        let t = s[i];
        let c = clamp(t.current - HARVEST_DAMAGE, 0, t.max);
        (
            s.update(i, TreeModel { current: c, ..t }),
            if t.current > 0 && c <= 0 {
                rewarded(wood)
            } else {
                wood
            },
        )
    } else {
        (s, wood)
    }
}

/// The member of an interaction that is not the avatar `player`, found by
/// exclusion whatever the order of the pair; none where neither member is
/// the avatar.
pub open spec fn aimed_at(ev: InteractionEvent, player: EntityId) -> Option<EntityId> {
    if ev.entity_1 == player {
        Some(ev.entity_2)
    } else if ev.entity_2 == player {
        Some(ev.entity_1)
    } else {
        None
    }
}

/// Trees and wood after the interactions `evs` of the avatar `player`, in
/// order: each is aimed at its member that is not the avatar.
pub open spec fn after_hits(
    s: Seq<TreeModel>,
    wood: int,
    player: EntityId,
    evs: Seq<InteractionEvent>,
) -> (Seq<TreeModel>, int)
    decreases evs.len(),
{
    if evs.len() == 0 {
        (s, wood)
    } else {
        let p = after_hits(s, wood, player, evs.drop_last());
        match aimed_at(evs.last(), player) {
            Some(e) => after_hit(p.0, p.1, e),
            None => p,
        }
    }
}

/// The trees of `s` that are still alive, in order.
pub open spec fn living(s: Seq<TreeModel>) -> Seq<TreeModel>
    decreases s.len(),
{
    if s.len() == 0 {
        s
    } else if s.last().current <= 0 {
        living(s.drop_last())
    } else {
        living(s.drop_last()).push(s.last())
    }
}

/// The entities of the trees of `s` that are dead, in order.
pub open spec fn felled(s: Seq<TreeModel>) -> Seq<EntityId>
    decreases s.len(),
{
    if s.len() == 0 {
        Seq::empty()
    } else if s.last().current <= 0 {
        felled(s.drop_last()).push(s.last().entity)
    } else {
        felled(s.drop_last())
    }
}

impl Tree {
    pub open spec fn model(&self) -> TreeModel {
        TreeModel {
            entity: self.entity,
            max: self.health.spec_max(),
            current: self.health.spec_current(),
        }
    }

    /// A tree of entity `entity` at full health.
    pub fn new(entity: EntityId) -> (r: Tree)
        ensures
            r.health.inv(),
            r.model() == (TreeModel { entity, max: TREE_HEALTH as int, current: TREE_HEALTH as int }),
    {
        Tree { entity, health: Health::new_full(TREE_HEALTH) }
    }
}

impl Forest {
    pub open spec fn model(&self) -> Seq<TreeModel> {
        self.trees@.map_values(|t: Tree| t.model())
    }

    pub open spec fn wf(&self) -> bool {
        forall|i: int| 0 <= i < self.trees@.len() ==> (#[trigger] self.trees@[i]).health.inv()
    }

    pub fn new() -> (r: Self)
        ensures
            r.wf(),
            r.model() == Seq::<TreeModel>::empty(),
    {
        let r = Forest { trees: Vec::new() };
        assert(r.model() =~= Seq::<TreeModel>::empty());
        r
    }

    /// Adds a tree at full health.
    pub fn spawn_tree(&mut self, entity: EntityId)
        requires
            old(self).wf(),
        ensures
            final(self).wf(),
            final(self).model() == old(self).model().push(
                TreeModel { entity, max: TREE_HEALTH as int, current: TREE_HEALTH as int },
            ),
    {
        let t = Tree::new(entity);
        self.trees.push(t);
        assert(self.model() =~= old(self).model().push(t.model()));
    }

    /// Applies one interaction aimed at `target`.
    pub fn harvest(&mut self, inventory: &mut Inventory, target: EntityId)
        requires
            old(self).wf(),
        ensures
            final(self).wf(),
            (final(self).model(), final(inventory).wood as int) == after_hit(
                old(self).model(),
                old(inventory).wood as int,
                target,
            ),
    {
        let ghost s = self.model();
        let mut i: usize = 0;
        while i < self.trees.len()
            invariant
                i <= self.trees@.len(),
                self.model() == s,
                forall|j: int| 0 <= j < i ==> self.trees@[j].entity != target,
            ensures
                i <= self.trees@.len(),
                self.model() == s,
                forall|j: int| 0 <= j < i ==> self.trees@[j].entity != target,
                i < self.trees@.len() ==> self.trees@[i as int].entity == target,
            decreases self.trees@.len() - i,
        {
            if self.trees[i].entity == target {
                break;
            }
            i = i + 1;
        }
        proof {
            assert forall|j: int| 0 <= j < i implies s[j].entity != target by {
                assert(s[j] == self.trees@[j].model());
            }
            if i < self.trees@.len() {
                assert(s[i as int] == self.trees@[i as int].model());
            }
            lemma_tree_index(s, target, i as int);
        }
        if i == self.trees.len() {
            return ;
        }
        let mut t = self.trees[i];
        let was_alive = t.health.is_alive();
        t.health.change(-HARVEST_DAMAGE);
        if was_alive && t.health.is_dead() {
            inventory.wood = inventory.wood.saturating_add(WOOD_PER_TREE);
        }
        self.trees.set(i, t);
        proof {
            assert(self.model() =~= s.update(i as int, t.model()));
            assert forall|j: int| 0 <= j < self.trees@.len() implies (
            #[trigger] self.trees@[j]).health.inv() by {
                if j != i {
                    assert(self.trees@[j] == old(self).trees@[j]);
                }
            }
        }
    }

    /// Applies the interactions of one tick made by the avatar `player`, in
    /// order; each is aimed at its member that is not the avatar, and one
    /// that names no avatar is ignored.
    pub fn handle_tree_interaction(
        &mut self,
        inventory: &mut Inventory,
        player: EntityId,
        events: &Vec<InteractionEvent>,
    )
        requires
            old(self).wf(),
        ensures
            final(self).wf(),
            (final(self).model(), final(inventory).wood as int) == after_hits(
                old(self).model(),
                old(inventory).wood as int,
                player,
                events@,
            ),
    {
        let mut i: usize = 0;
        while i < events.len()
            invariant
                i <= events@.len(),
                self.wf(),
                (self.model(), inventory.wood as int) == after_hits(
                    old(self).model(),
                    old(inventory).wood as int,
                    player,
                    events@.subrange(0, i as int),
                ),
            decreases events@.len() - i,
        {
            let ev = events[i];
            if ev.entity_1 == player {
                self.harvest(inventory, ev.entity_2);
            } else if ev.entity_2 == player {
                self.harvest(inventory, ev.entity_1);
            }
            proof {
                assert(events@.subrange(0, i + 1).drop_last() =~= events@.subrange(0, i as int));
            }
            i = i + 1;
        }
        proof {
            assert(events@.subrange(0, events@.len() as int) =~= events@);
        }
    }

    /// Removes the dead trees and returns their entities.
    pub fn despawn_dead_trees(&mut self) -> (r: Vec<EntityId>)
        requires
            old(self).wf(),
        ensures
            final(self).wf(),
            final(self).model() == living(old(self).model()),
            r@ == felled(old(self).model()),
    {
        let ghost s = self.model();
        let mut kept: Vec<Tree> = Vec::new();
        let mut gone: Vec<EntityId> = Vec::new();
        let mut i: usize = 0;
        while i < self.trees.len()
            invariant
                i <= self.trees@.len(),
                self.wf(),
                s == self.model(),
                forall|j: int| 0 <= j < kept@.len() ==> (#[trigger] kept@[j]).health.inv(),
                kept@.map_values(|t: Tree| t.model()) == living(s.subrange(0, i as int)),
                gone@ == felled(s.subrange(0, i as int)),
            decreases self.trees@.len() - i,
        {
            let t = self.trees[i];
            proof {
                assert(s.subrange(0, i + 1).drop_last() =~= s.subrange(0, i as int));
                assert(s.subrange(0, i + 1).last() == t.model());
            }
            if t.health.is_dead() {
                gone.push(t.entity);
            } else {
                let ghost before = kept@;
                kept.push(t);
                proof {
                    assert(kept@.map_values(|t: Tree| t.model()) =~= before.map_values(
                        |t: Tree| t.model(),
                    ).push(t.model()));
                }
            }
            i = i + 1;
        }
        proof {
            assert(s.subrange(0, i as int) =~= s);
        }
        self.trees = kept;
        gone
    }
}

/// Trees and wood after `k` interactions aimed at `e`.
pub open spec fn after_repeated_hits(s: Seq<TreeModel>, wood: int, e: EntityId, k: nat) -> (
    Seq<TreeModel>,
    int,
)
    decreases k,
{
    if k == 0 {
        (s, wood)
    } else {
        let p = after_repeated_hits(s, wood, e, (k - 1) as nat);
        after_hit(p.0, p.1, e)
    }
}

/// Hitting a living tree `k` times takes the harvest damage off `k` times,
/// down to zero, and pays the wood exactly once: from the hit that fells it
/// on; the other trees are untouched.
pub proof fn lemma_felling_pays_once(s: Seq<TreeModel>, wood: int, e: EntityId, k: nat)
    requires
        tree_index(s, e) < s.len(),
        0 < s[tree_index(s, e)].current <= s[tree_index(s, e)].max,
        0 <= wood,
        wood + WOOD_PER_TREE <= u32::MAX,
    ensures
        ({
            let i = tree_index(s, e);
            let r = after_repeated_hits(s, wood, e, k);
            &&& tree_index(r.0, e) == i
            &&& r.0 == s.update(
                i,
                TreeModel { current: clamp(s[i].current - HARVEST_DAMAGE * k, 0, s[i].max), ..s[i] },
            )
            &&& r.1 == if HARVEST_DAMAGE * k >= s[i].current {
                wood + WOOD_PER_TREE
            } else {
                wood
            }
        }),
    decreases k,
{
    let i = tree_index(s, e);
    lemma_tree_index_facts(s, e);
    if k == 0 {
        assert(s.update(i, TreeModel { current: s[i].current, ..s[i] }) =~= s);
    } else {
        lemma_felling_pays_once(s, wood, e, (k - 1) as nat);
        let p = after_repeated_hits(s, wood, e, (k - 1) as nat);
        lemma_tree_index_facts(p.0, e);
        let t = p.0[i];
        let c = clamp(t.current - HARVEST_DAMAGE, 0, t.max);
        assert(p.0.update(i, TreeModel { current: c, ..t }) =~= s.update(
            i,
            TreeModel { current: clamp(s[i].current - HARVEST_DAMAGE * k, 0, s[i].max), ..s[i] },
        ));
        let q = after_hit(p.0, p.1, e);
        assert forall|j: int| 0 <= j < i implies q.0[j].entity != e by {
            assert(q.0[j] == s[j]);
        }
        lemma_tree_index(q.0, e, i);
    }
}

proof fn lemma_tree_index_facts(s: Seq<TreeModel>, e: EntityId)
    ensures
        0 <= tree_index(s, e) <= s.len(),
        forall|j: int| 0 <= j < tree_index(s, e) ==> s[j].entity != e,
        tree_index(s, e) < s.len() ==> s[tree_index(s, e)].entity == e,
    decreases s.len(),
{
    if s.len() > 0 && s[0].entity != e {
        let t = s.drop_first();
        lemma_tree_index_facts(t, e);
        assert forall|j: int| 0 <= j < tree_index(s, e) implies s[j].entity != e by {
            if j > 0 {
                assert(s[j] == t[j - 1]);
            }
        }
    }
}

proof fn lemma_tree_index(s: Seq<TreeModel>, e: EntityId, i: int)
    requires
        0 <= i <= s.len(),
        forall|j: int| 0 <= j < i ==> s[j].entity != e,
        i < s.len() ==> s[i].entity == e,
    ensures
        tree_index(s, e) == i,
    decreases s.len(),
{
    if s.len() > 0 && i > 0 {
        let t = s.drop_first();
        assert forall|j: int| 0 <= j < i - 1 implies t[j].entity != e by {
            assert(t[j] == s[j + 1]);
        }
        lemma_tree_index(t, e, i - 1);
    }
}

} // verus!
