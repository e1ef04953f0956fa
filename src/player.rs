use vstd::prelude::*;
use crate::building::{Builder, Direction, Inventory, PlayerState};
use crate::hitbox::{Hitbox, SpawnHitboxEvent};
use crate::input::{ButtonInput, InputParam, PlayerAction, KEY_A, KEY_D, KEY_S, KEY_W};
use crate::registry::{EntityId, InteractableEntities, InteractionEvent};
use crate::space::Position;

verus! {

/// Marker of the avatar.
#[derive(Clone, Copy, Debug, PartialEq, Eq, Structural)]
pub struct Player;

/// Marker of entities the avatar can interact with.
#[derive(Clone, Copy, Debug, PartialEq, Eq, Structural)]
pub struct Interactable;

/// An attack made by an entity.
#[derive(Clone, Copy, Debug, PartialEq, Eq, Structural)]
pub struct AttackEvent(pub EntityId);

/// Unit steps of the held movement keys, as `(x, z)`: W and S along `z`,
/// A and D along `x`; opposite keys cancel.
pub open spec fn held_direction(w: bool, s: bool, a: bool, d: bool) -> (int, int) {
    (
        (if d { 1int } else { 0int }) - (if a { 1int } else { 0int }),
        (if s { 1int } else { 0int }) - (if w { 1int } else { 0int }),
    )
}

/// The step of the preview for keys pressed this frame: of several, D wins
/// over A, A over S, S over W.
pub open spec fn pressed_step(w: bool, s: bool, a: bool, d: bool) -> Option<Direction> {
    if d {
        Some(Direction::Right)
    } else if a {
        Some(Direction::Left)
    } else if s {
        Some(Direction::Back)
    } else if w {
        Some(Direction::Forward)
    } else {
        None
    }
}

fn has(v: &Vec<u32>, k: u32) -> (r: bool)
    ensures
        r == v@.contains(k),
{
    let mut i: usize = 0;
    while i < v.len()
        invariant
            i <= v@.len(),
            forall|j: int| 0 <= j < i ==> v@[j] != k,
        decreases v@.len() - i,
    {
        if v[i] == k {
            return true;
        }
        i = i + 1;
    }
    false
}

/// Direction of the avatar's walk from the held keys, as `(x, z)`; its
/// length and speed are applied by the physics side.
pub fn move_player(input: &ButtonInput) -> (r: (i64, i64))
    ensures
        (r.0 as int, r.1 as int) == held_direction(
            input.pressed@.contains(KEY_W),
            input.pressed@.contains(KEY_S),
            input.pressed@.contains(KEY_A),
            input.pressed@.contains(KEY_D),
        ),
{
    let mut x: i64 = 0;
    let mut z: i64 = 0;
    if has(&input.pressed, KEY_W) {
        z = z - 1;
    }
    if has(&input.pressed, KEY_S) {
        z = z + 1;
    }
    if has(&input.pressed, KEY_A) {
        x = x - 1;
    }
    if has(&input.pressed, KEY_D) {
        x = x + 1;
    }
    (x, z)
}

/// The interaction for this frame: on a press of the interact action, aimed
/// at the earliest registered interactable.
pub fn interact(input: &InputParam, player: EntityId, registry: &InteractableEntities) -> (r:
    Option<InteractionEvent>)
    ensures
        r == registry.interaction_for(player, input.just(PlayerAction::Interact)),
{
    let pressed = input.action_just_pressed(PlayerAction::Interact);
    registry.interact(player, pressed)
}

/// On a press of the attack action, a melee hitbox of `player` at the
/// sensor's position.
pub fn attack(input: &InputParam, player: EntityId, sensor_position: Position) -> (r: Option<
    SpawnHitboxEvent,
>)
    ensures
        input.just(PlayerAction::Attack) ==> (r matches Some(ev) && ev.0.wf() && ev.0.sender
            == player && ev.0.position == sensor_position && ev.0 == Hitbox::melee_spec(
            player,
            sensor_position,
        )),
        !input.just(PlayerAction::Attack) ==> r is None,
{
    if !input.action_just_pressed(PlayerAction::Attack) {
        return None;
    }
    Some(SpawnHitboxEvent(Hitbox::melee(player, sensor_position)))
}

/// A press of the build action in normal mode enters building mode.
pub fn start_building(input: &InputParam, builder: &mut Builder)
    requires
        old(builder).wf(),
    ensures
        final(builder).wf(),
        final(builder).buildings@ == old(builder).buildings@,
        if input.just(PlayerAction::Build) && old(builder).state == PlayerState::Normal {
            final(builder).state == PlayerState::BuildingMode && final(builder).preview == Some(
                crate::building::preview_start(),
            )
        } else {
            final(builder).state == old(builder).state && final(builder).preview == old(
                builder,
            ).preview
        },
{
    builder.start_building(input.action_just_pressed(PlayerAction::Build));
}

/// A press of the cancel action in building mode returns to normal mode.
pub fn cancel_building_mode(input: &InputParam, builder: &mut Builder)
    requires
        old(builder).wf(),
    ensures
        final(builder).wf(),
        final(builder).buildings@ == old(builder).buildings@,
        if input.just(PlayerAction::Cancel) && old(builder).state == PlayerState::BuildingMode {
            final(builder).state == PlayerState::Normal && final(builder).preview is None
        } else {
            final(builder).state == old(builder).state && final(builder).preview == old(
                builder,
            ).preview
        },
{
    builder.cancel_building_mode(input.action_just_pressed(PlayerAction::Cancel));
}

/// Moves the preview by the direction keys pressed this frame.
pub fn move_preview(input: &ButtonInput, builder: &mut Builder)
    requires
        old(builder).wf(),
    ensures
        final(builder).wf(),
        final(builder).state == old(builder).state,
        final(builder).buildings@ == old(builder).buildings@,
        ({
            let step = pressed_step(
                input.just_pressed@.contains(KEY_W),
                input.just_pressed@.contains(KEY_S),
                input.just_pressed@.contains(KEY_A),
                input.just_pressed@.contains(KEY_D),
            );
            final(builder).preview == match (old(builder).preview, step) {
                (Some(p), Some(d)) => if crate::building::stepped(p, d).in_world() {
                    Some(crate::building::stepped(p, d))
                } else {
                    Some(p)
                },
                _ => old(builder).preview,
            }
        }),
{
    let mut step: Option<Direction> = None;
    if has(&input.just_pressed, KEY_W) {
        step = Some(Direction::Forward);
    }
    if has(&input.just_pressed, KEY_S) {
        step = Some(Direction::Back);
    }
    if has(&input.just_pressed, KEY_A) {
        step = Some(Direction::Left);
    }
    if has(&input.just_pressed, KEY_D) {
        step = Some(Direction::Right);
    }
    builder.move_preview(step);
}

/// A press of the build action in building mode commits the preview when
/// the wood suffices; returns whether a building was placed.
pub fn build(input: &InputParam, inventory: &mut Inventory, builder: &mut Builder) -> (r: bool)
    requires
        old(builder).wf(),
    ensures
        final(builder).wf(),
        r == (input.just(PlayerAction::Build) && old(builder).state == PlayerState::BuildingMode
            && old(inventory).wood >= crate::building::BUILDING_COST),
        r ==> {
            &&& final(inventory).wood == old(inventory).wood - crate::building::BUILDING_COST
            &&& final(builder).buildings@ == old(builder).buildings@.push(old(builder).preview->0)
            &&& final(builder).state == PlayerState::Normal
            &&& final(builder).preview is None
        },
        !r ==> {
            &&& *final(inventory) == *old(inventory)
            &&& final(builder).buildings@ == old(builder).buildings@
            &&& final(builder).state == old(builder).state
            &&& final(builder).preview == old(builder).preview
        },
{
    builder.build(inventory, input.action_just_pressed(PlayerAction::Build))
}

} // verus!
