use vstd::prelude::*;

verus! {

/// A point or offset of the world, in millimetres; `y` is vertical.
#[derive(Clone, Copy, Debug, PartialEq, Eq, Structural)]
pub struct Position {
    pub x: i64,
    pub y: i64,
    pub z: i64,
}

/// Largest coordinate magnitude of a position in the world (100 km).
pub const WORLD_LIMIT: i64 = 100_000_000;

impl Position {
    /// Every coordinate lies within the world.
    pub open spec fn in_world(&self) -> bool {
        -WORLD_LIMIT <= self.x <= WORLD_LIMIT && -WORLD_LIMIT <= self.y <= WORLD_LIMIT
            && -WORLD_LIMIT <= self.z <= WORLD_LIMIT
    }

    /// Squared length of the vector from `self` to `to`.
    pub open spec fn dist_sq(&self, to: Position) -> int {
        (to.x - self.x) * (to.x - self.x) + (to.y - self.y) * (to.y - self.y) + (to.z - self.z)
            * (to.z - self.z)
    }
}

} // verus!
