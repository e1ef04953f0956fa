use forrest::building::Inventory;
use forrest::registry::InteractionEvent;
use forrest::tree::Forest;

const PLAYER: u64 = 1;

fn hit(e: u64) -> InteractionEvent {
    InteractionEvent { entity_1: PLAYER, entity_2: e }
}

#[test]
fn four_hits_fell_a_tree_once() {
    let mut forest = Forest::new();
    forest.spawn_tree(20);
    forest.spawn_tree(21);
    let mut inv = Inventory { wood: 5 };
    forest.handle_tree_interaction(&mut inv, PLAYER, &vec![hit(20), hit(20), hit(20)]);
    assert_eq!(forest.trees[0].health.current(), 1);
    assert!(!forest.trees[0].health.is_dead());
    assert!(forest.despawn_dead_trees().is_empty());
    assert_eq!(inv.wood, 5);
    forest.handle_tree_interaction(&mut inv, PLAYER, &vec![hit(20)]);
    assert_eq!(forest.trees[0].health.current(), 0);
    assert!(forest.trees[0].health.is_dead());
    assert_eq!(inv.wood, 15);
    // a further hit in the same tick gives no second reward
    forest.handle_tree_interaction(&mut inv, PLAYER, &vec![hit(20)]);
    assert_eq!(inv.wood, 15);
    assert_eq!(forest.despawn_dead_trees(), vec![20]);
    assert_eq!(forest.trees.len(), 1);
    assert_eq!(forest.trees[0].entity, 21);
    assert_eq!(forest.trees[0].health.current(), 10);
    forest.handle_tree_interaction(&mut inv, PLAYER, &vec![hit(20)]);
    assert_eq!(inv.wood, 15);
}

#[test]
fn hits_on_other_entities_are_ignored() {
    let mut forest = Forest::new();
    forest.spawn_tree(20);
    let mut inv = Inventory { wood: 0 };
    forest.harvest(&mut inv, 99);
    assert_eq!(forest.trees[0].health.current(), 10);
    assert_eq!(inv.wood, 0);
}

#[test]
fn reward_saturates() {
    let mut forest = Forest::new();
    forest.spawn_tree(20);
    let mut inv = Inventory { wood: u32::MAX - 3 };
    forest.handle_tree_interaction(&mut inv, PLAYER, &vec![hit(20), hit(20), hit(20), hit(20)]);
    assert_eq!(inv.wood, u32::MAX);
}

#[test]
fn pair_order_does_not_matter() {
    let mut forest = Forest::new();
    forest.spawn_tree(20);
    let mut inv = Inventory { wood: 0 };
    let reversed = InteractionEvent { entity_1: 20, entity_2: PLAYER };
    forest.handle_tree_interaction(&mut inv, PLAYER, &vec![reversed, hit(20)]);
    assert_eq!(forest.trees[0].health.current(), 4);
}

#[test]
fn events_without_the_avatar_are_ignored() {
    let mut forest = Forest::new();
    forest.spawn_tree(20);
    let mut inv = Inventory { wood: 0 };
    let stray = InteractionEvent { entity_1: 7, entity_2: 20 };
    forest.handle_tree_interaction(&mut inv, PLAYER, &vec![stray]);
    assert_eq!(forest.trees[0].health.current(), 10);
}
