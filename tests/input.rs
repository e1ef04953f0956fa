use forrest::building::{Builder, Inventory, PlayerState};
use forrest::input::{
    ButtonInput, InputMap, InputParam, PlayerAction, KEY_A, KEY_B, KEY_C, KEY_D, KEY_F, KEY_S,
    KEY_SPACE, KEY_W,
};
use forrest::player::{attack, build, cancel_building_mode, interact, move_player, move_preview, start_building};
use forrest::registry::{CollisionEvent, InteractableEntities, InteractionEvent};
use forrest::space::Position;

fn param() -> InputParam {
    InputParam { input_map: InputMap::default(), input: ButtonInput::new() }
}

#[test]
fn default_bindings() {
    let m = InputMap::default();
    assert_eq!(m.get(PlayerAction::Interact), Some(KEY_F));
    assert_eq!(m.get(PlayerAction::Attack), Some(KEY_SPACE));
    assert_eq!(m.get(PlayerAction::Build), Some(KEY_B));
    assert_eq!(m.get(PlayerAction::Cancel), Some(KEY_C));
}

#[test]
fn press_is_a_rising_edge_only() {
    let mut p = param();
    p.input.press(KEY_F);
    assert!(p.action_just_pressed(PlayerAction::Interact));
    assert!(p.action_pressed(PlayerAction::Interact));
    p.input.clear();
    p.input.press(KEY_F);
    assert!(!p.action_just_pressed(PlayerAction::Interact));
    assert!(p.action_pressed(PlayerAction::Interact));
    p.input.release(KEY_F);
    assert!(p.action_just_released(PlayerAction::Interact));
    assert!(!p.action_pressed(PlayerAction::Interact));
}

#[test]
fn unmapped_action_never_triggers() {
    let mut p = param();
    p.input_map.set(PlayerAction::Attack, None);
    p.input.press(KEY_SPACE);
    assert!(!p.action_just_pressed(PlayerAction::Attack));
    assert!(!p.action_pressed(PlayerAction::Attack));
    assert!(attack(&p, 1, Position { x: 0, y: 0, z: 0 }).is_none());
}

#[test]
fn attack_spawns_a_melee_hitbox() {
    let mut p = param();
    let at = Position { x: 500, y: 1000, z: 0 };
    assert!(attack(&p, 1, at).is_none());
    p.input.press(KEY_SPACE);
    let ev = attack(&p, 1, at).expect("a hitbox on the press");
    assert_eq!(ev.0.sender, 1);
    assert_eq!(ev.0.position, at);
    assert_eq!(ev.0.lifetime.duration, 500_000_000);
}

#[test]
fn interact_press_sends_one_event() {
    let mut p = param();
    let mut reg = InteractableEntities::new();
    reg.update_interactables(Some(2), &vec![30], &vec![CollisionEvent::Started(2, 30)]);
    assert_eq!(interact(&p, 1, &reg), None);
    p.input.press(KEY_F);
    assert_eq!(interact(&p, 1, &reg), Some(InteractionEvent { entity_1: 1, entity_2: 30 }));
    p.input.clear();
    assert_eq!(interact(&p, 1, &reg), None);
}

#[test]
fn walk_direction_from_held_keys() {
    let mut keys = ButtonInput::new();
    assert_eq!(move_player(&keys), (0, 0));
    keys.press(KEY_W);
    keys.press(KEY_D);
    assert_eq!(move_player(&keys), (1, -1));
    keys.press(KEY_S);
    keys.press(KEY_A);
    assert_eq!(move_player(&keys), (0, 0));
}

#[test]
fn building_through_the_bindings() {
    let mut p = param();
    let mut b = Builder::new();
    let mut inv = Inventory { wood: 30 };
    p.input.press(KEY_B);
    start_building(&p, &mut b);
    assert_eq!(b.state, PlayerState::BuildingMode);
    p.input.clear();
    p.input.press(KEY_D);
    p.input.press(KEY_W);
    move_preview(&p.input, &mut b);
    assert_eq!(b.preview, Some(Position { x: 1000, y: 750, z: 0 }));
    p.input.clear();
    assert!(!build(&p, &mut inv, &mut b));
    p.input.release(KEY_B);
    p.input.press(KEY_B);
    assert!(build(&p, &mut inv, &mut b));
    assert_eq!(inv.wood, 0);
    assert_eq!(b.buildings, vec![Position { x: 1000, y: 750, z: 0 }]);
    p.input.clear();
    p.input.release(KEY_B);
    p.input.press(KEY_B);
    start_building(&p, &mut b);
    assert_eq!(b.state, PlayerState::BuildingMode);
    p.input.clear();
    p.input.press(KEY_A);
    p.input.press(KEY_S);
    move_preview(&p.input, &mut b);
    assert_eq!(b.preview, Some(Position { x: -1000, y: 750, z: 0 }));
    p.input.press(KEY_C);
    cancel_building_mode(&p, &mut b);
    assert_eq!(b.state, PlayerState::Normal);
    assert!(b.preview.is_none());
    assert_eq!(b.buildings.len(), 1);
}
