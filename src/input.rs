use vstd::prelude::*;

verus! {

/// Identifier of a physical key.
pub type KeyCode = u32;

pub const KEY_SPACE: KeyCode = 32;
pub const KEY_A: KeyCode = 65;
pub const KEY_B: KeyCode = 66;
pub const KEY_C: KeyCode = 67;
pub const KEY_D: KeyCode = 68;
pub const KEY_F: KeyCode = 70;
pub const KEY_S: KeyCode = 83;
pub const KEY_W: KeyCode = 87;

/// A logical action of the player.
#[derive(Clone, Copy, Debug, PartialEq, Eq, Structural, Hash)]
pub enum PlayerAction {
    Interact,
    Attack,
    Build,
    Cancel,
}

/// The key bound to each action; an action without one never triggers.
#[derive(Clone, Copy, Debug, PartialEq, Eq, Structural)]
pub struct InputMap {
    pub interact: Option<KeyCode>,
    pub attack: Option<KeyCode>,
    pub build: Option<KeyCode>,
    pub cancel: Option<KeyCode>,
}

/// The state of the keys in this frame: those held, those pressed since the
/// last frame and those released since the last frame.
pub struct ButtonInput {
    pub pressed: Vec<KeyCode>,
    pub just_pressed: Vec<KeyCode>,
    pub just_released: Vec<KeyCode>,
}

/// What the player's actions read: the bindings and the keys.
pub struct InputParam {
    pub input_map: InputMap,
    pub input: ButtonInput,
}

impl InputMap {
    /// The key bound to `action`.
    pub open spec fn binding(&self, action: PlayerAction) -> Option<KeyCode> {
        match action {
            PlayerAction::Interact => self.interact,
            PlayerAction::Attack => self.attack,
            PlayerAction::Build => self.build,
            PlayerAction::Cancel => self.cancel,
        }
    }

    pub fn get(&self, action: PlayerAction) -> (r: Option<KeyCode>)
        ensures
            r == self.binding(action),
    {
        match action {
            PlayerAction::Interact => self.interact,
            PlayerAction::Attack => self.attack,
            PlayerAction::Build => self.build,
            PlayerAction::Cancel => self.cancel,
        }
    }

    /// Binds `action` to `key`, or unbinds it.
    pub fn set(&mut self, action: PlayerAction, key: Option<KeyCode>)
        ensures
            final(self).binding(action) == key,
            forall|a: PlayerAction| a != action ==> final(self).binding(a) == old(self).binding(a),
    {
        match action {
            PlayerAction::Interact => self.interact = key,
            PlayerAction::Attack => self.attack = key,
            PlayerAction::Build => self.build = key,
            PlayerAction::Cancel => self.cancel = key,
        }
    }
}

impl Default for InputMap {
    /// Interact on F, attack on space, build on B, cancel on C.
    fn default() -> (r: Self)
        ensures
            r.interact == Some(KEY_F),
            r.attack == Some(KEY_SPACE),
            r.build == Some(KEY_B),
            r.cancel == Some(KEY_C),
    {
        InputMap {
            interact: Some(KEY_F),
            attack: Some(KEY_SPACE),
            build: Some(KEY_B),
            cancel: Some(KEY_C),
        }
    }
}

fn holds(v: &Vec<KeyCode>, k: KeyCode) -> (r: bool)
    ensures
        r == v@.contains(k),
{
    let mut i: usize = 0;
    while i < v.len()
        invariant
            i <= v@.len(),
            forall|j: int| 0 <= j < i ==> v@[j] != k,
        decreases v@.len() - i,
    {
        if v[i] == k {
            return true;
        }
        i = i + 1;
    }
    false
}

fn without(v: &Vec<KeyCode>, k: KeyCode) -> (r: Vec<KeyCode>)
    ensures
        r@ == v@.filter(|x: KeyCode| x != k),
        !r@.contains(k),
{
    let mut r: Vec<KeyCode> = Vec::new();
    let mut i: usize = 0;
    while i < v.len()
        invariant
            i <= v@.len(),
            r@ == v@.subrange(0, i as int).filter(|x: KeyCode| x != k),
            forall|j: int| 0 <= j < r@.len() ==> r@[j] != k,
        decreases v@.len() - i,
    {
        proof {
            assert(v@.subrange(0, i + 1).drop_last() =~= v@.subrange(0, i as int));
            reveal(Seq::filter);
        }
        if v[i] != k {
            r.push(v[i]);
        }
        i = i + 1;
    }
    proof {
        assert(v@.subrange(0, i as int) =~= v@);
    }
    r
}

impl ButtonInput {
    /// No key is held, pressed or released.
    pub fn new() -> (r: Self)
        ensures
            r.pressed@ == Seq::<KeyCode>::empty(),
            r.just_pressed@ == Seq::<KeyCode>::empty(),
            r.just_released@ == Seq::<KeyCode>::empty(),
    {
        ButtonInput { pressed: Vec::new(), just_pressed: Vec::new(), just_released: Vec::new() }
    }

    /// A key goes down: it is held, and just pressed unless it was held.
    pub fn press(&mut self, k: KeyCode)
        ensures
            final(self).pressed@.contains(k),
            final(self).just_released@ == old(self).just_released@,
            old(self).pressed@.contains(k) ==> final(self).pressed@ == old(self).pressed@
                && final(self).just_pressed@ == old(self).just_pressed@,
            !old(self).pressed@.contains(k) ==> final(self).pressed@ == old(self).pressed@.push(k)
                && final(self).just_pressed@ == old(self).just_pressed@.push(k),
    {
        if !holds(&self.pressed, k) {
            self.pressed.push(k);
            self.just_pressed.push(k);
            assert(self.pressed@[self.pressed@.len() - 1] == k);
        }
    }

    /// A key goes up: it is no longer held, and just released if it was.
    pub fn release(&mut self, k: KeyCode)
        ensures
            !final(self).pressed@.contains(k),
            final(self).pressed@ == old(self).pressed@.filter(|x: KeyCode| x != k),
            final(self).just_pressed@ == old(self).just_pressed@,
            final(self).just_released@ == if old(self).pressed@.contains(k) {
                old(self).just_released@.push(k)
            } else {
                old(self).just_released@
            },
    {
        let was = holds(&self.pressed, k);
        self.pressed = without(&self.pressed, k);
        if was {
            self.just_released.push(k);
        }
    }

    /// Starts a new frame: nothing is just pressed or just released.
    pub fn clear(&mut self)
        ensures
            final(self).pressed@ == old(self).pressed@,
            final(self).just_pressed@ == Seq::<KeyCode>::empty(),
            final(self).just_released@ == Seq::<KeyCode>::empty(),
    {
        self.just_pressed.clear();
        self.just_released.clear();
    }
}

impl InputParam {
    /// The key of `action` went down this frame.
    pub open spec fn just(&self, action: PlayerAction) -> bool {
        self.input_map.binding(action) matches Some(k) && self.input.just_pressed@.contains(k)
    }

    /// The action's key went down this frame.
    pub fn action_just_pressed(&self, player_action: PlayerAction) -> (r: bool)
        ensures
            r == self.just(player_action),
    {
        match self.input_map.get(player_action) {
            Some(k) => holds(&self.input.just_pressed, k),
            None => false,
        }
    }

    /// The action's key is held.
    pub fn action_pressed(&self, player_action: PlayerAction) -> (r: bool)
        ensures
            r == (self.input_map.binding(player_action) matches Some(k)
                && self.input.pressed@.contains(k)),
    {
        match self.input_map.get(player_action) {
            Some(k) => holds(&self.input.pressed, k),
            None => false,
        }
    }

    /// The action's key went up this frame.
    pub fn action_just_released(&self, player_action: PlayerAction) -> (r: bool)
        ensures
            r == (self.input_map.binding(player_action) matches Some(k)
                && self.input.just_released@.contains(k)),
    {
        match self.input_map.get(player_action) {
            Some(k) => holds(&self.input.just_released, k),
            None => false,
        }
    }
}

} // verus!
