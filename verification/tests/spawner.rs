use vector_survivor::assets::{is_new_second, GameTime};
use vector_survivor::components::MoveSpeed;
use vector_survivor::session::{
    enemies_per_spawn, enemy_spawn, spawn_enemy, speed_bounds, EnemySpawn, SpawnEdge,
};
use vector_survivor::ui::update_time_stats;

const SECOND: u128 = 1_000_000_000;

#[test]
fn spawn_count_at_start_and_after_twenty_five_seconds() {
    assert_eq!(enemies_per_spawn(0), 2);
    assert_eq!(enemies_per_spawn(25), 5);
}

#[test]
fn spawn_count_is_one_per_five_seconds_and_at_least_two() {
    assert_eq!(enemies_per_spawn(9), 2);
    assert_eq!(enemies_per_spawn(14), 2);
    assert_eq!(enemies_per_spawn(15), 3);
    assert_eq!(enemies_per_spawn(19), 3);
    assert_eq!(enemies_per_spawn(600), 120);
}

#[test]
fn speed_bounds_grow_in_steps_and_plateau() {
    assert_eq!(speed_bounds(0), (0, 0));
    assert_eq!(speed_bounds(9), (0, 0));
    assert_eq!(speed_bounds(10), (0, 5));
    assert_eq!(speed_bounds(19), (0, 5));
    assert_eq!(speed_bounds(20), (5, 10));
    assert_eq!(speed_bounds(45), (10, 20));
    assert_eq!(speed_bounds(399), (95, 195));
    assert_eq!(speed_bounds(400), (100, 200));
    assert_eq!(speed_bounds(409), (100, 200));
    assert_eq!(speed_bounds(100_000), (100, 200));
    assert_eq!(speed_bounds(u128::MAX), (100, 200));
}

#[test]
fn lower_bound_never_exceeds_upper_bound() {
    let mut last = (0u64, 0u64);
    for seconds in 0..2000u128 {
        let bounds = speed_bounds(seconds);
        assert!(bounds.0 <= bounds.1);
        assert!(last.0 <= bounds.0 && last.1 <= bounds.1);
        last = bounds;
    }
}

#[test]
fn coins_pick_the_edge() {
    assert_eq!(enemy_spawn(true, true, 0).edge, SpawnEdge::Top);
    assert_eq!(enemy_spawn(true, false, 0).edge, SpawnEdge::Bottom);
    assert_eq!(enemy_spawn(false, true, 0).edge, SpawnEdge::Right);
    assert_eq!(enemy_spawn(false, false, 0).edge, SpawnEdge::Left);
}

#[test]
fn enemy_speed_is_eighty_plus_the_draw() {
    assert_eq!(
        enemy_spawn(true, true, 0),
        EnemySpawn { edge: SpawnEdge::Top, speed: MoveSpeed(80_000) }
    );
    assert_eq!(enemy_spawn(false, false, 37).speed, MoveSpeed(117_000));
    assert_eq!(enemy_spawn(false, true, 200).speed, MoveSpeed(280_000));
}

const TICK: u128 = 200_000_000;

#[test]
fn nothing_spawns_within_a_second() {
    let start = GameTime(0);
    assert!(spawn_enemy(0, TICK, &start).is_empty());
    assert!(spawn_enemy(25 * SECOND + 3 * TICK, 25 * SECOND + 4 * TICK, &start).is_empty());
    assert!(spawn_enemy(SECOND, 2 * SECOND - 1, &start).is_empty());
    assert!(spawn_enemy(7 * SECOND, 7 * SECOND, &start).is_empty());
}

#[test]
fn two_enemies_at_the_start() {
    let start = GameTime(3 * SECOND);
    let spawns = spawn_enemy(3 * SECOND - TICK, 3 * SECOND, &start);
    assert_eq!(spawns.len(), 2);
    for spawn in spawns {
        assert_eq!(spawn.speed, MoveSpeed(80_000));
    }
}

#[test]
fn five_enemies_after_twenty_five_seconds() {
    let start = GameTime(2 * SECOND);
    let spawns = spawn_enemy(27 * SECOND - TICK, 27 * SECOND, &start);
    assert_eq!(spawns.len(), 5);
    for spawn in spawns {
        // 25 seconds in: between 5 and 10 on top of 80.
        assert!(MoveSpeed(85_000).0 <= spawn.speed.0 && spawn.speed.0 <= MoveSpeed(90_000).0);
        assert_eq!(spawn.speed.0 % 1000, 0);
    }
}

#[test]
fn a_tick_that_steps_over_the_boundary_spawns() {
    // Ticks at 0.9 s and 1.2 s: the second changes between them.
    let start = GameTime(0);
    let spawns = spawn_enemy(900_000_000, 1_200_000_000, &start);
    assert_eq!(spawns.len(), 2);
    // The next tick, at 1.5 s, lies in the same second.
    assert!(spawn_enemy(1_200_000_000, 1_500_000_000, &start).is_empty());
}

#[test]
fn one_spawn_per_second_at_five_ticks_a_second() {
    let start = GameTime(0);
    let mut spawning_ticks = 0;
    for tick in 1..=50u128 {
        if !spawn_enemy((tick - 1) * TICK, tick * TICK, &start).is_empty() {
            spawning_ticks += 1;
            assert_eq!((tick * TICK) % SECOND, 0);
        }
    }
    assert_eq!(spawning_ticks, 10);
}

#[test]
fn session_seconds_round_down() {
    // The session started half a second before a whole second.
    let start = GameTime(SECOND / 2);
    let spawns = spawn_enemy(16 * SECOND - TICK, 16 * SECOND, &start);
    // 15.5 seconds in count as 15: three enemies.
    assert_eq!(spawns.len(), 3);
}

#[test]
fn late_spawns_stay_in_the_plateau() {
    let start = GameTime(0);
    let spawns = spawn_enemy(1000 * SECOND - TICK, 1000 * SECOND, &start);
    assert_eq!(spawns.len(), 200);
    let mut slowest = u64::MAX;
    let mut fastest = 0;
    for spawn in &spawns {
        assert!(180_000 <= spawn.speed.0 && spawn.speed.0 <= 280_000);
        slowest = slowest.min(spawn.speed.0);
        fastest = fastest.max(spawn.speed.0);
    }
    // Two hundred draws from a hundred and one values are not all the same.
    assert!(slowest < fastest);
}

#[test]
fn every_edge_is_used() {
    let start = GameTime(0);
    let spawns = spawn_enemy(5000 * SECOND - TICK, 5000 * SECOND, &start);
    assert_eq!(spawns.len(), 1000);
    for edge in [SpawnEdge::Top, SpawnEdge::Bottom, SpawnEdge::Right, SpawnEdge::Left] {
        assert!(spawns.iter().any(|spawn| spawn.edge == edge));
    }
}

#[test]
fn the_second_changes_between_ticks() {
    assert!(is_new_second(SECOND - TICK, SECOND));
    assert!(is_new_second(SECOND - 1, SECOND));
    assert!(is_new_second(900_000_000, 1_200_000_000));
    assert!(is_new_second(0, 77 * SECOND));
    assert!(!is_new_second(0, 0));
    assert!(!is_new_second(0, SECOND - 1));
    assert!(!is_new_second(SECOND, SECOND + TICK));
    assert!(!is_new_second(SECOND + TICK, SECOND + 2 * TICK));
}

#[test]
fn elapsed_session_time() {
    let start = GameTime(4 * SECOND + 5);
    assert_eq!(start.elapsed_seconds(4 * SECOND + 5), 0);
    assert_eq!(start.elapsed_seconds(5 * SECOND + 4), 0);
    assert_eq!(start.elapsed_seconds(5 * SECOND + 5), 1);
    assert_eq!(start.elapsed_seconds(64 * SECOND + 5), 60);
}

#[test]
fn shown_time_changes_with_the_second() {
    let start = GameTime(2 * SECOND);
    assert_eq!(update_time_stats(2 * SECOND - TICK, 2 * SECOND, &start), Some(0));
    assert_eq!(update_time_stats(2 * SECOND, 2 * SECOND + TICK, &start), None);
    assert_eq!(update_time_stats(12 * SECOND - TICK, 12 * SECOND, &start), Some(10));
    assert_eq!(update_time_stats(12 * SECOND - 1, 12 * SECOND + 300_000_000, &start), Some(10));
}
