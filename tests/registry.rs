use forrest::registry::{CollisionEvent, InteractableEntities, InteractionEvent};

const SENSOR: u64 = 1;
const PLAYER: u64 = 99;

#[test]
fn started_registers_once_and_stopped_removes_once() {
    let tagged = vec![10u64, 11, 12];
    let mut reg = InteractableEntities::new();
    reg.update_interactables(Some(SENSOR), &tagged, &vec![CollisionEvent::Started(SENSOR, 10)]);
    assert_eq!(reg.interactables, vec![10]);
    // a repeated start does not register it twice
    reg.update_interactables(Some(SENSOR), &tagged, &vec![CollisionEvent::Started(10, SENSOR)]);
    assert_eq!(reg.interactables, vec![10]);
    reg.update_interactables(
        Some(SENSOR),
        &tagged,
        &vec![CollisionEvent::Stopped(10, SENSOR), CollisionEvent::Stopped(SENSOR, 10)],
    );
    assert!(reg.interactables.is_empty());
    assert_eq!(reg.removed, vec![10]);
    let (lit, cleared) = reg.highlight_interactables();
    assert!(lit.is_empty());
    assert_eq!(cleared, vec![10]);
    assert!(reg.removed.is_empty());
}

#[test]
fn events_without_the_sensor_or_untagged_entities_are_ignored() {
    let tagged = vec![10u64];
    let mut reg = InteractableEntities::new();
    reg.update_interactables(
        Some(SENSOR),
        &tagged,
        &vec![CollisionEvent::Started(5, 10), CollisionEvent::Started(SENSOR, 7)],
    );
    assert!(reg.interactables.is_empty());
    reg.update_interactables(Some(SENSOR), &tagged, &vec![CollisionEvent::Stopped(SENSOR, 10)]);
    assert!(reg.removed.is_empty());
}

#[test]
fn stopped_swap_removes() {
    let tagged = vec![10u64, 11, 12];
    let mut reg = InteractableEntities::new();
    reg.update_interactables(
        Some(SENSOR),
        &tagged,
        &vec![
            CollisionEvent::Started(SENSOR, 10),
            CollisionEvent::Started(SENSOR, 11),
            CollisionEvent::Started(12, SENSOR),
            CollisionEvent::Stopped(SENSOR, 10),
        ],
    );
    assert_eq!(reg.interactables, vec![12, 11]);
    assert_eq!(reg.removed, vec![10]);
    let (lit, cleared) = reg.highlight_interactables();
    assert_eq!(lit, vec![12, 11]);
    assert_eq!(cleared, vec![10]);
}

#[test]
fn interact_targets_the_first_registered() {
    let tagged = vec![10u64, 11];
    let mut reg = InteractableEntities::new();
    assert_eq!(reg.interact(PLAYER, true), None);
    reg.update_interactables(
        Some(SENSOR),
        &tagged,
        &vec![CollisionEvent::Started(SENSOR, 11), CollisionEvent::Started(SENSOR, 10)],
    );
    assert_eq!(
        reg.interact(PLAYER, true),
        Some(InteractionEvent { entity_1: PLAYER, entity_2: 11 })
    );
    assert_eq!(reg.interact(PLAYER, false), None);
}

#[test]
fn without_a_sensor_nothing_changes() {
    let tagged = vec![10u64];
    let mut reg = InteractableEntities::new();
    reg.update_interactables(None, &tagged, &vec![CollisionEvent::Started(SENSOR, 10)]);
    assert!(reg.interactables.is_empty());
    assert!(reg.removed.is_empty());
}
