use vector_survivor::assets::{GameTime, Killed};
use vector_survivor::components::{BulletSpeed, FireRate, Level, MoveSpeed, TargetCount, XP};
use vector_survivor::events::{
    raise, read_kill_event, read_player_bullet_speed_up_event, read_player_fire_rate_up_event,
    read_player_move_speed_up_event, read_player_target_count_up_event, PlayerStats, Upgrade,
};
use vector_survivor::session::{
    gain_xp, render_xp_bar, required_for_level, setup_game, xp_bar_width,
};
use vector_survivor::states::AppState;

fn fresh() -> (XP, Level) {
    (XP(0), Level(1))
}

#[test]
fn threshold_is_twelve_plus_three_per_level() {
    assert_eq!(required_for_level(&Level(0)), 12);
    assert_eq!(required_for_level(&Level(1)), 15);
    assert_eq!(required_for_level(&Level(2)), 18);
    assert_eq!(required_for_level(&Level(10)), 42);
}

#[test]
fn threshold_grows_with_every_level() {
    let mut last = required_for_level(&Level(0));
    for level in 1..200usize {
        let next = required_for_level(&Level(level));
        assert_eq!(next, last + 3);
        assert!(next > last);
        last = next;
    }
}

#[test]
fn kills_below_threshold_are_experience() {
    for kills in 0..15usize {
        let (mut xp, mut level) = fresh();
        let mut killed = Killed(0);
        let passed = read_kill_event(kills as u32, &mut killed);
        let next = render_xp_bar(passed as usize, &mut xp, &mut level);
        assert_eq!(killed, Killed(kills as u32));
        assert_eq!(xp, XP(kills));
        assert_eq!(level, Level(1));
        assert_eq!(next, None);
    }
}

#[test]
fn threshold_kill_opens_next_level() {
    let (mut xp, mut level) = fresh();
    let next = render_xp_bar(15, &mut xp, &mut level);
    assert_eq!(xp, XP(0));
    assert_eq!(level, Level(2));
    assert_eq!(next, Some(AppState::SelectUpgrade));
}

#[test]
fn kills_carry_over_levels() {
    // 15 kills complete level 1, 18 more complete level 2, 4 are left.
    let (mut xp, mut level) = fresh();
    let next = render_xp_bar(15 + 18 + 4, &mut xp, &mut level);
    assert_eq!(xp, XP(4));
    assert_eq!(level, Level(3));
    assert_eq!(next, Some(AppState::SelectUpgrade));
}

#[test]
fn single_kill_steps() {
    let mut xp = XP(13);
    let mut level = Level(1);
    assert!(!gain_xp(&mut xp, &mut level));
    assert_eq!((xp, level), (XP(14), Level(1)));
    assert!(gain_xp(&mut xp, &mut level));
    assert_eq!((xp, level), (XP(0), Level(2)));
}

#[test]
fn replay_gives_the_same_progress() {
    for kills in [0usize, 1, 14, 15, 16, 33, 100, 1000] {
        let (mut xp_a, mut level_a) = fresh();
        let (mut xp_b, mut level_b) = fresh();
        let mut killed_a = Killed(0);
        let mut killed_b = Killed(0);
        read_kill_event(kills as u32, &mut killed_a);
        read_kill_event(kills as u32, &mut killed_b);
        render_xp_bar(kills, &mut xp_a, &mut level_a);
        render_xp_bar(kills, &mut xp_b, &mut level_b);
        assert_eq!((xp_a, level_a, killed_a), (xp_b, level_b, killed_b));
    }
}

#[test]
fn replay_in_two_parts_gives_the_same_progress() {
    let (mut xp_a, mut level_a) = fresh();
    render_xp_bar(40, &mut xp_a, &mut level_a);
    let (mut xp_b, mut level_b) = fresh();
    render_xp_bar(17, &mut xp_b, &mut level_b);
    render_xp_bar(23, &mut xp_b, &mut level_b);
    assert_eq!((xp_a, level_a), (xp_b, level_b));
}

#[test]
fn kill_counter_counts_every_kill() {
    let mut killed = Killed(7);
    assert_eq!(read_kill_event(5, &mut killed), 5);
    assert_eq!(killed, Killed(12));
    assert_eq!(read_kill_event(0, &mut killed), 0);
    assert_eq!(killed, Killed(12));
}

#[test]
fn session_setup_resets_the_session() {
    let mut game_time = GameTime(3);
    let mut killed = Killed(99);
    let (player, next) = setup_game(5_000_000_000, &mut game_time, &mut killed);
    assert_eq!(game_time, GameTime(5_000_000_000));
    assert_eq!(killed, Killed(0));
    assert_eq!(next, AppState::InGame);
    assert_eq!(player.xp, XP(0));
    assert_eq!(player.level, Level(1));
    assert_eq!(player.move_speed, MoveSpeed(100_000));
    assert_eq!(player.bullet_speed, BulletSpeed(250_000));
    assert_eq!(player.fire_rate, FireRate(60_000));
    assert_eq!(player.target_count, TargetCount(1));
}

#[test]
fn bar_width_is_twice_the_completed_part() {
    // Level 1 needs 15; a viewport of 1200 units.
    assert_eq!(xp_bar_width(&XP(0), &Level(1), 1_200_000), 0);
    assert_eq!(xp_bar_width(&XP(5), &Level(1), 1_200_000), 800_000);
    assert_eq!(xp_bar_width(&XP(14), &Level(1), 1_200_000), 2_240_000);
    // Rounded down: 2 * 1 * 1000 / 15 = 133.33..
    assert_eq!(xp_bar_width(&XP(1), &Level(1), 1_000), 133);
}

#[test]
fn upgrade_multiplies_by_one_point_oh_five() {
    assert_eq!(raise(100_000, 0), 100_000);
    assert_eq!(raise(100_000, 1), 105_000);
    assert_eq!(raise(100_000, 2), 110_250);
    assert_eq!(raise(100_000, 3), 115_762);
    assert_eq!(raise(19, 5), 19);
    assert_eq!(raise(20, 1), 21);
}

#[test]
fn upgrade_events_change_their_own_stat() {
    let mut move_speed = MoveSpeed(100_000);
    assert_eq!(read_player_move_speed_up_event(1, &mut move_speed), 1);
    assert_eq!(move_speed, MoveSpeed(105_000));

    let mut fire_rate = FireRate(60_000);
    assert_eq!(read_player_fire_rate_up_event(2, &mut fire_rate), 2);
    assert_eq!(fire_rate, FireRate(66_150));

    let mut bullet_speed = BulletSpeed(250_000);
    assert_eq!(read_player_bullet_speed_up_event(1, &mut bullet_speed), 1);
    assert_eq!(bullet_speed, BulletSpeed(262_500));

    let mut count = TargetCount(1);
    assert_eq!(read_player_target_count_up_event(3, &mut count), 3);
    assert_eq!(count, TargetCount(4));

    let mut untouched = MoveSpeed(100_000);
    assert_eq!(read_player_move_speed_up_event(0, &mut untouched), 0);
    assert_eq!(untouched, MoveSpeed(100_000));
}

fn new_stats() -> PlayerStats {
    PlayerStats {
        move_speed: MoveSpeed(100_000),
        fire_rate: FireRate(60_000),
        bullet_speed: BulletSpeed(250_000),
        target_count: TargetCount(1),
    }
}

#[test]
fn upgrades_commute() {
    let all = [
        Upgrade::MoveSpeed,
        Upgrade::FireRate,
        Upgrade::BulletSpeed,
        Upgrade::TargetCount,
    ];
    for first in all {
        for second in all {
            let mut one = new_stats();
            one.apply(first);
            one.apply(second);
            let mut other = new_stats();
            other.apply(second);
            other.apply(first);
            assert_eq!(one, other);
        }
    }
}

#[test]
fn move_speed_then_fire_rate_is_fire_rate_then_move_speed() {
    let mut one = new_stats();
    one.apply(Upgrade::MoveSpeed);
    one.apply(Upgrade::FireRate);
    let mut other = new_stats();
    other.apply(Upgrade::FireRate);
    other.apply(Upgrade::MoveSpeed);
    assert_eq!(one.move_speed, MoveSpeed(105_000));
    assert_eq!(other.move_speed, MoveSpeed(105_000));
    assert_eq!(one.fire_rate, FireRate(63_000));
    assert_eq!(other.fire_rate, FireRate(63_000));
    assert_eq!(one.bullet_speed, BulletSpeed(250_000));
    assert_eq!(one.target_count, TargetCount(1));
}

#[test]
fn target_count_upgrade_adds_one() {
    let mut stats = new_stats();
    stats.apply(Upgrade::TargetCount);
    assert_eq!(stats.target_count, TargetCount(2));
    assert_eq!(stats.move_speed, MoveSpeed(100_000));
}

#[test]
fn threshold_is_defined_for_every_level() {
    assert_eq!(required_for_level(&Level(usize::MAX)), 12 + 3 * (usize::MAX as u128));
}

#[test]
fn one_kill_from_any_state_below_the_threshold() {
    for level in [1usize, 2, 7, 100] {
        let required = 12 + 3 * level;
        for start in 0..required {
            let mut xp = XP(start);
            let mut reached = Level(level);
            let next = render_xp_bar(1, &mut xp, &mut reached);
            if start + 1 >= required {
                assert_eq!((xp, reached), (XP(0), Level(level + 1)));
                assert_eq!(next, Some(AppState::SelectUpgrade));
            } else {
                assert_eq!((xp, reached), (XP(start + 1), Level(level)));
                assert_eq!(next, None);
            }
        }
    }
}

#[test]
fn each_level_needs_three_more_kills() {
    for level in 1..50usize {
        let needed = 12 + 3 * level;
        let mut xp = XP(0);
        let mut reached = Level(level);
        assert_eq!(render_xp_bar(needed - 1, &mut xp, &mut reached), None);
        assert_eq!((xp, reached), (XP(needed - 1), Level(level)));
        assert_eq!(render_xp_bar(1, &mut xp, &mut reached), Some(AppState::SelectUpgrade));
        assert_eq!((xp, reached), (XP(0), Level(level + 1)));
        assert_eq!(required_for_level(&reached), needed as u128 + 3);
    }
}
