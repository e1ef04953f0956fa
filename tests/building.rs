use forrest::building::{Builder, Direction, Inventory, PlayerState};
use forrest::space::Position;

#[test]
fn commit_needs_enough_wood() {
    let mut b = Builder::new();
    let mut inv = Inventory { wood: 25 };
    b.start_building(true);
    assert_eq!(b.state, PlayerState::BuildingMode);
    assert!(!b.build(&mut inv, true));
    assert_eq!(inv.wood, 25);
    assert_eq!(b.state, PlayerState::BuildingMode);
    assert!(b.buildings.is_empty());
    inv.wood = 30;
    b.move_preview(Some(Direction::Right));
    b.move_preview(Some(Direction::Forward));
    let at = b.preview.expect("a preview in building mode");
    assert!(b.build(&mut inv, true));
    assert_eq!(inv.wood, 0);
    assert_eq!(b.buildings, vec![at]);
    assert_eq!(at, Position { x: 1000, y: 750, z: -1000 });
    assert_eq!(b.state, PlayerState::Normal);
    assert!(b.preview.is_none());
}

#[test]
fn exit_without_preview_keeps_buildings() {
    let mut b = Builder::new();
    let mut inv = Inventory { wood: 60 };
    b.start_building(true);
    assert!(b.build(&mut inv, true));
    b.exit_building_mode();
    b.exit_building_mode();
    assert_eq!(b.state, PlayerState::Normal);
    assert!(b.preview.is_none());
    assert_eq!(b.buildings.len(), 1);
    assert_eq!(inv.wood, 30);
}

#[test]
fn cancel_leaves_building_mode() {
    let mut b = Builder::new();
    b.cancel_building_mode(true);
    assert_eq!(b.state, PlayerState::Normal);
    b.start_building(false);
    assert_eq!(b.state, PlayerState::Normal);
    b.start_building(true);
    assert_eq!(b.preview, Some(Position { x: 0, y: 750, z: 0 }));
    b.cancel_building_mode(false);
    assert_eq!(b.state, PlayerState::BuildingMode);
    b.cancel_building_mode(true);
    assert_eq!(b.state, PlayerState::Normal);
    assert!(b.preview.is_none());
}

#[test]
fn build_press_outside_building_mode_does_nothing() {
    let mut b = Builder::new();
    let mut inv = Inventory::default();
    inv.wood = 100;
    assert!(!b.build(&mut inv, true));
    assert_eq!(inv.wood, 100);
    assert!(b.buildings.is_empty());
}

#[test]
fn preview_moves_one_cell_per_press() {
    let mut b = Builder::new();
    b.start_building(true);
    b.move_preview(Some(Direction::Back));
    b.move_preview(Some(Direction::Back));
    b.move_preview(Some(Direction::Left));
    b.move_preview(None);
    assert_eq!(b.preview, Some(Position { x: -1000, y: 750, z: 2000 }));
}
