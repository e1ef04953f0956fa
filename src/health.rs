use vstd::prelude::*;

verus! {

/// `v` clamped to the closed range `[lo, hi]`.
pub open spec fn clamp(v: int, lo: int, hi: int) -> int {
    if v < lo {
        lo
    } else if v > hi {
        hi
    } else {
        v
    }
}

/// Vitality counter of an entity: `0 <= current <= max`, `max > 0`.
#[derive(Clone, Copy, Debug)]
pub struct Health {
    max: i32,
    current: i32,
}

impl Health {
    /// Upper bound of the counter.
    pub closed spec fn spec_max(&self) -> int {
        self.max as int
    }

    /// Present value of the counter.
    pub closed spec fn spec_current(&self) -> int {
        self.current as int
    }

    /// The counter's invariant.
    pub open spec fn inv(&self) -> bool {
        0 < self.spec_max() && 0 <= self.spec_current() <= self.spec_max()
    }

    /// A counter with the given bound, its value clamped into `[0, max]`.
    pub fn new(max: i32, current: i32) -> (r: Self)
        requires
            max > 0,
        ensures
            r.inv(),
            r.spec_max() == max,
            r.spec_current() == clamp(current as int, 0, max as int),
    {
        Health { max, current: clamp_i64(current as i64, max) }
    }

    /// A counter at its maximum.
    pub fn new_full(max: i32) -> (r: Self)
        requires
            max > 0,
        ensures
            r.inv(),
            r.spec_max() == max,
            r.spec_current() == max,
    {
        Health { max, current: max }
    }

    /// Changes the bound; the value is clamped down to it.
    pub fn set_max(&mut self, max: i32)
        requires
            old(self).inv(),
            max > 0,
        ensures
            final(self).inv(),
            final(self).spec_max() == max,
            final(self).spec_current() == clamp(old(self).spec_current(), 0, max as int),
    {
        self.max = max;
        self.current = clamp_i64(self.current as i64, max);
    }

    /// Sets the value, clamped into `[0, max]`.
    pub fn set_current(&mut self, current: i32)
        requires
            old(self).inv(),
        ensures
            final(self).inv(),
            final(self).spec_max() == old(self).spec_max(),
            final(self).spec_current() == clamp(current as int, 0, old(self).spec_max()),
    {
        self.current = clamp_i64(current as i64, self.max);
    }

    pub fn max(&self) -> (r: i32)
        ensures
            r == self.spec_max(),
    {
        self.max
    }

    pub fn current(&self) -> (r: i32)
        ensures
            r == self.spec_current(),
    {
        self.current
    }

    /// Adds `amount` (positive heals, negative damages), clamped into `[0, max]`.
    pub fn change(&mut self, amount: i32)
        requires
            old(self).inv(),
        ensures
            final(self).inv(),
            final(self).spec_max() == old(self).spec_max(),
            final(self).spec_current() == clamp(
                old(self).spec_current() + amount,
                0,
                old(self).spec_max(),
            ),
    {
        self.current = clamp_i64(self.current as i64 + amount as i64, self.max);
    }

    pub fn is_dead(&self) -> (r: bool)
        ensures
            r == (self.spec_current() <= 0),
    {
        self.current <= 0
    }

    pub fn is_alive(&self) -> (r: bool)
        ensures
            r == (self.spec_current() > 0),
    {
        !self.is_dead()
    }
}

fn clamp_i64(v: i64, max: i32) -> (r: i32)
    requires
        max >= 0,
    ensures
        r == clamp(v as int, 0, max as int),
{
    if v < 0 {
        0
    } else if v > max as i64 {
        max
    } else {
        v as i32
    }
}

/// Value of a counter that starts at `start` with bound `max` after the
/// changes `deltas`, applied in order, each clamped.
pub open spec fn after_changes(max: int, start: int, deltas: Seq<int>) -> int
    decreases deltas.len(),
{
    if deltas.len() == 0 {
        start
    } else {
        clamp(after_changes(max, start, deltas.drop_last()) + deltas.last(), 0, max)
    }
}

/// Whatever sequence of changes is applied to a valid counter, its value
/// stays within `[0, max]` after each of them.
pub proof fn lemma_changes_stay_in_range(max: int, start: int, deltas: Seq<int>)
    requires
        0 < max,
        0 <= start <= max,
    ensures
        forall|k: int|
            0 <= k <= deltas.len() ==> 0 <= #[trigger] after_changes(
                max,
                start,
                deltas.subrange(0, k),
            ) <= max,
    decreases deltas.len(),
{
    assert forall|k: int| 0 <= k <= deltas.len() implies 0 <= #[trigger] after_changes(
        max,
        start,
        deltas.subrange(0, k),
    ) <= max by {
        let s = deltas.subrange(0, k);
        if s.len() > 0 {
            assert(0 <= clamp(after_changes(max, start, s.drop_last()) + s.last(), 0, max) <= max);
        }
    }
}

} // verus!
