use vstd::prelude::*;
use crate::space::{Position, WORLD_LIMIT};

verus! {

/// Side of a grid cell: one unit.
pub const CELL_SIZE: i64 = 1000;

/// Wood that one building costs.
pub const BUILDING_COST: u32 = 30;

/// Where a new preview appears: the origin, raised half its height.
pub const PREVIEW_HEIGHT: i64 = 750;

/// Mode of the avatar.
#[derive(Clone, Copy, Debug, PartialEq, Eq, Structural, Hash)]
pub enum PlayerState {
    Normal,
    BuildingMode,
}

/// The resource counter shown to the player.
#[derive(Clone, Copy, Debug, PartialEq, Eq, Structural)]
pub struct Inventory {
    pub wood: u32,
}

/// A step of the preview along one horizontal axis.
#[derive(Clone, Copy, Debug, PartialEq, Eq, Structural)]
pub enum Direction {
    /// Towards negative `z`.
    Forward,
    /// Towards positive `z`.
    Back,
    /// Towards negative `x`.
    Left,
    /// Towards positive `x`.
    Right,
}

/// Placement state: the avatar's mode, the preview that exists exactly in
/// building mode, and the buildings placed so far.
pub struct Builder {
    pub state: PlayerState,
    pub preview: Option<Position>,
    pub buildings: Vec<Position>,
}

/// Snapshot of the placement state.
pub struct BuilderModel {
    pub state: PlayerState,
    pub preview: Option<Position>,
    pub buildings: Seq<Position>,
}

/// The placement state after leaving building mode.
pub open spec fn exited(m: BuilderModel) -> BuilderModel {
    BuilderModel { state: PlayerState::Normal, preview: None, buildings: m.buildings }
}

/// `p` moved one cell in direction `d`.
pub open spec fn stepped(p: Position, d: Direction) -> Position {
    match d {
        Direction::Forward => Position { z: (p.z - CELL_SIZE) as i64, ..p },
        Direction::Back => Position { z: (p.z + CELL_SIZE) as i64, ..p },
        Direction::Left => Position { x: (p.x - CELL_SIZE) as i64, ..p },
        Direction::Right => Position { x: (p.x + CELL_SIZE) as i64, ..p },
    }
}

/// The position of a fresh preview.
pub open spec fn preview_start() -> Position {
    Position { x: 0, y: PREVIEW_HEIGHT, z: 0 }
}

impl Default for Inventory {
    /// No wood.
    fn default() -> (r: Self)
        ensures
            r.wood == 0,
    {
        Inventory { wood: 0 }
    }
}

impl Builder {
    pub open spec fn model(&self) -> BuilderModel {
        BuilderModel { state: self.state, preview: self.preview, buildings: self.buildings@ }
    }

    /// A preview exists exactly in building mode, inside the world.
    pub open spec fn wf(&self) -> bool {
        &&& (self.state == PlayerState::BuildingMode) == (self.preview is Some)
        &&& self.preview matches Some(p) ==> p.in_world()
    }

    /// Normal mode, no preview, no buildings.
    pub fn new() -> (r: Self)
        ensures
            r.wf(),
            r.state == PlayerState::Normal,
            r.preview is None,
            r.buildings@ == Seq::<Position>::empty(),
    {
        Builder { state: PlayerState::Normal, preview: None, buildings: Vec::new() }
    }

    /// Enters building mode, creating the preview.
    pub fn enter_build_mode(&mut self)
        requires
            old(self).wf(),
        ensures
            final(self).wf(),
            final(self).state == PlayerState::BuildingMode,
            final(self).preview == Some(preview_start()),
            final(self).buildings@ == old(self).buildings@,
    {
        self.state = PlayerState::BuildingMode;
        self.preview = Some(Position { x: 0, y: PREVIEW_HEIGHT, z: 0 });
    }

    /// Leaves building mode, destroying the preview if there is one;
    /// buildings are left as they are.
    pub fn exit_building_mode(&mut self)
        requires
            old(self).wf(),
        ensures
            final(self).wf(),
            final(self).model() == exited(old(self).model()),
    {
        self.state = PlayerState::Normal;
        self.preview = None;
    }

    /// A press of the build action in normal mode enters building mode.
    pub fn start_building(&mut self, build_pressed: bool)
        requires
            old(self).wf(),
        ensures
            final(self).wf(),
            final(self).buildings@ == old(self).buildings@,
            if build_pressed && old(self).state == PlayerState::Normal {
                final(self).state == PlayerState::BuildingMode && final(self).preview == Some(
                    preview_start(),
                )
            } else {
                final(self).state == old(self).state && final(self).preview == old(self).preview
            },
    {
        if build_pressed && self.state == PlayerState::Normal {
            self.enter_build_mode();
        }
    }

    /// A press of the cancel action in building mode returns to normal mode.
    pub fn cancel_building_mode(&mut self, cancel_pressed: bool)
        requires
            old(self).wf(),
        ensures
            final(self).wf(),
            final(self).buildings@ == old(self).buildings@,
            if cancel_pressed && old(self).state == PlayerState::BuildingMode {
                final(self).state == PlayerState::Normal && final(self).preview is None
            } else {
                final(self).state == old(self).state && final(self).preview == old(self).preview
            },
    {
        if cancel_pressed && self.state == PlayerState::BuildingMode {
            self.exit_building_mode();
        }
    }

    /// Moves the preview one cell in the pressed direction, if any; a step
    /// that would leave the world is not taken.
    pub fn move_preview(&mut self, pressed: Option<Direction>)
        requires
            old(self).wf(),
        ensures
            final(self).wf(),
            final(self).state == old(self).state,
            final(self).buildings@ == old(self).buildings@,
            final(self).preview == match (old(self).preview, pressed) {
                (Some(p), Some(d)) => if stepped(p, d).in_world() {
                    Some(stepped(p, d))
                } else {
                    Some(p)
                },
                _ => old(self).preview,
            },
    {
        if let Some(p) = self.preview {
            if let Some(d) = pressed {
                let (dx, dz): (i64, i64) = match d {
                    Direction::Forward => (0, -CELL_SIZE),
                    Direction::Back => (0, CELL_SIZE),
                    Direction::Left => (-CELL_SIZE, 0),
                    Direction::Right => (CELL_SIZE, 0),
                };
                let x = p.x + dx;
                let z = p.z + dz;
                if -WORLD_LIMIT <= x && x <= WORLD_LIMIT && -WORLD_LIMIT <= z && z <= WORLD_LIMIT {
                    self.preview = Some(Position { x, y: p.y, z });
                }
            }
        }
    }

    /// A press of the build action in building mode: with enough wood, pays
    /// the cost, places a building at the preview and returns to normal mode;
    /// otherwise nothing changes.
    pub fn build(&mut self, inventory: &mut Inventory, build_pressed: bool) -> (r: bool)
        requires
            old(self).wf(),
        ensures
            final(self).wf(),
            r == (build_pressed && old(self).state == PlayerState::BuildingMode
                && old(inventory).wood >= BUILDING_COST),
            r ==> {
                &&& final(inventory).wood == old(inventory).wood - BUILDING_COST
                &&& final(self).buildings@ == old(self).buildings@.push(old(self).preview->0)
                &&& final(self).state == PlayerState::Normal
                &&& final(self).preview is None
            },
            !r ==> {
                &&& *final(inventory) == *old(inventory)
                &&& final(self).buildings@ == old(self).buildings@
                &&& final(self).state == old(self).state
                &&& final(self).preview == old(self).preview
            },
    {
        if !build_pressed || self.state != PlayerState::BuildingMode {
            return false;
        }
        if inventory.wood < BUILDING_COST {
            return false;
        }
        let at = match self.preview {
            Some(p) => p,
            None => {
                return false;
            },
        };
        inventory.wood = inventory.wood - BUILDING_COST;
        self.buildings.push(at);
        self.exit_building_mode();
        true
    }
}

/// Leaving building mode twice in a row is the same as leaving it once,
/// and leaving it where no preview exists keeps every building.
pub proof fn lemma_exit_idempotent(m: BuilderModel)
    ensures
        exited(exited(m)) == exited(m),
        exited(m).buildings == m.buildings,
        m.preview is None ==> exited(m).buildings == m.buildings && exited(m).preview is None,
{
}

} // verus!
