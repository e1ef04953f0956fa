use rand::rngs::StdRng;
use rand::SeedableRng;
use forrest::enemy::{spawn_radius, EnemyAI, Steering};
use forrest::space::Position;
use forrest::tree::tree_spawn_radius;

const SECOND: u64 = 1_000_000_000;

fn here() -> Position {
    Position { x: 4000, y: 200, z: -3000 }
}

#[test]
fn idle_agent_seeks_after_its_first_period() {
    let mut rng = StdRng::seed_from_u64(7);
    let mut ai = EnemyAI::new();
    ai.wander(&mut rng, here(), 2 * SECOND);
    assert!(ai.target_position.is_none());
    assert_eq!(ai.move_timer.duration, 3 * SECOND);
    ai.wander(&mut rng, here(), SECOND);
    let t = ai.target_position.expect("a target after three seconds");
    assert!((t.x - here().x).abs() <= 2500);
    assert!((t.z - here().z).abs() <= 2500);
    assert_eq!(t.y, 200);
    assert!(ai.move_timer.duration >= 5 * SECOND && ai.move_timer.duration < 6 * SECOND);
}

#[test]
fn given_offsets_set_the_target_and_period() {
    let mut ai = EnemyAI::new();
    ai.update_move_timer(here(), 3 * SECOND, -2500, 1200, 5_500_000_000);
    assert_eq!(ai.target_position, Some(Position { x: 1500, y: 200, z: -1800 }));
    assert_eq!(ai.move_timer.duration, 5_500_000_000);
    assert_eq!(ai.move_timer.elapsed, 0);
}

#[test]
fn steering_heads_for_the_target_then_halts() {
    let mut ai = EnemyAI::new();
    assert_eq!(ai.move_enemy(here()), Steering::Halt);
    ai.update_move_timer(here(), 3 * SECOND, 2000, 0, 5 * SECOND);
    assert_eq!(
        ai.move_enemy(here()),
        Steering::Toward(Position { x: 2000, y: 0, z: 0 })
    );
    let near = Position { x: 5950, y: 200, z: -3000 };
    assert_eq!(ai.move_enemy(near), Steering::Halt);
    assert!(ai.target_position.is_none());
}

#[test]
fn arrival_within_a_tenth_clears_the_target() {
    let mut ai = EnemyAI::new();
    ai.update_move_timer(here(), 3 * SECOND, 2000, 0, 5 * SECOND);
    let far = Position { x: 5899, y: 200, z: -3000 };
    assert_eq!(ai.move_enemy(far), Steering::Toward(Position { x: 101, y: 0, z: 0 }));
    assert!(ai.target_position.is_some());
    let close = Position { x: 5900, y: 200, z: -3000 };
    assert_eq!(ai.move_enemy(close), Steering::Halt);
    assert!(ai.target_position.is_none());
    assert_eq!(ai.move_enemy(close), Steering::Halt);
}

#[test]
fn spawn_radii_vary_within_their_ranges() {
    let mut rng = StdRng::seed_from_u64(3);
    let radii: Vec<i64> = (0..20).map(|_| spawn_radius(&mut rng)).collect();
    assert!(radii.iter().all(|r| (2000..7000).contains(r)));
    assert!(radii.iter().any(|r| *r != radii[0]));
    let trees: Vec<i64> = (0..20).map(|_| tree_spawn_radius(&mut rng)).collect();
    assert!(trees.iter().all(|r| (2000..12000).contains(r)));
    assert!(trees.iter().any(|r| *r != 2000));
}
