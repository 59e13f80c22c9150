//! The session: its initial state, the spawner's policy and the rule by
//! which kills become experience and levels.

use rand::rngs::ThreadRng;
use rand::Rng;
use vstd::prelude::*;

use crate::assets::{is_new_second, second_changed, session_seconds, GameTime, Killed};
use crate::components::{BulletSpeed, FireRate, Level, MoveSpeed, TargetCount, XP};
use crate::states::{next_state, AppState, ModeInput};

verus! {

/// The thread-local random number generator of the `rand` crate.
#[verifier::external_type_specification]
#[verifier::external_body]
pub struct ExThreadRng(ThreadRng);

/// The edge of the visible area on which an enemy appears.
#[derive(Debug, Clone, Copy, PartialEq, Eq, Structural)]
pub enum SpawnEdge {
    Top,
    Bottom,
    Right,
    Left,
}

/// What the spawner decides for one enemy: its edge and its speed. Where on
/// that edge it appears is left to the caller.
#[derive(Debug, Clone, Copy, PartialEq, Eq, Structural)]
pub struct EnemySpawn {
    pub edge: SpawnEdge,
    pub speed: MoveSpeed,
}

/// Enemies spawned on a whole second, `seconds` into the session: one for
/// every five seconds, and at least two.
pub open spec fn spawn_count(seconds: int) -> int {
    if seconds / 5 >= 2 {
        seconds / 5
    } else {
        2
    }
}

/// The least that is added to an enemy's base speed, in whole units: five for
/// every twenty seconds, capped at 100.
pub open spec fn speed_lower_bound(seconds: int) -> int {
    if seconds / 20 * 5 <= 100 {
        seconds / 20 * 5
    } else {
        100
    }
}

/// The most that is added to an enemy's base speed, in whole units: five for
/// every ten seconds, capped at 200.
pub open spec fn speed_upper_bound(seconds: int) -> int {
    if seconds / 10 * 5 <= 200 {
        seconds / 10 * 5
    } else {
        200
    }
}

/// The edge that two coin tosses pick: the first between the pair top/bottom
/// and the pair right/left, the second within the pair.
pub open spec fn edge_for(horizontal_edge: bool, far_side: bool) -> SpawnEdge {
    if horizontal_edge {
        if far_side {
            SpawnEdge::Top
        } else {
            SpawnEdge::Bottom
        }
    } else {
        if far_side {
            SpawnEdge::Right
        } else {
            SpawnEdge::Left
        }
    }
}

/// The speed of an enemy whose random addition is `extra` whole units.
pub open spec fn enemy_speed(extra: int) -> int {
    (80 + extra) * 1000
}

/// Whether `spawn` is a speed that the spawner may give `seconds` into the
/// session.
pub open spec fn speed_allowed(spawn: EnemySpawn, seconds: int) -> bool {
    exists|extra: int|
        speed_lower_bound(seconds) <= extra <= speed_upper_bound(seconds) && spawn.speed.0
            == #[trigger] enemy_speed(extra)
}

/// Both bounds never fall as the session goes on, and the lower one never
/// exceeds the upper one.
pub proof fn lemma_speed_bounds(earlier: int, later: int)
    requires
        0 <= earlier <= later,
    ensures
        speed_lower_bound(earlier) <= speed_lower_bound(later),
        speed_upper_bound(earlier) <= speed_upper_bound(later),
        0 <= speed_lower_bound(later) <= speed_upper_bound(later) <= 200,
        speed_lower_bound(later) <= 100,
{
    assert(earlier / 20 <= later / 20 && earlier / 10 <= later / 10 && later / 20 <= later / 10
        && 0 <= later / 20) by (nonlinear_arith)
        requires
            0 <= earlier <= later,
    ;
}

/// The number of enemies per spawn never falls as the session goes on.
pub proof fn lemma_spawn_count_monotonic(earlier: int, later: int)
    requires
        0 <= earlier <= later,
    ensures
        2 <= spawn_count(earlier) <= spawn_count(later),
{
}

/// How many enemies to spawn on a whole second, `seconds` into the session.
pub fn enemies_per_spawn(seconds: u128) -> (count: u128)
    ensures
        count == spawn_count(seconds as int),
{
    let by_time: u128 = seconds / 5;
    if by_time >= 2 {
        by_time
    } else {
        2
    }
}

/// The range, in whole units, from which the addition to an enemy's base
/// speed is drawn `seconds` into the session.
pub fn speed_bounds(seconds: u128) -> (bounds: (u64, u64))
    ensures
        bounds.0 == speed_lower_bound(seconds as int),
        bounds.1 == speed_upper_bound(seconds as int),
        bounds.0 <= bounds.1,
{
    proof {
        lemma_speed_bounds(seconds as int, seconds as int);
    }
    let slow: u128 = seconds / 20;
    let fast: u128 = seconds / 10;
    let low: u64 = if slow <= 20 {
        (slow * 5) as u64
    } else {
        100
    };
    let high: u64 = if fast <= 40 {
        (fast * 5) as u64
    } else {
        200
    };
    (low, high)
}

/// The enemy that the spawner asks for when the two coins fell as given and
/// `extra` whole units were drawn for its speed.
pub fn enemy_spawn(horizontal_edge: bool, far_side: bool, extra: u64) -> (spawn: EnemySpawn)
    requires
        extra <= 200,
    ensures
        spawn.edge == edge_for(horizontal_edge, far_side),
        spawn.speed.0 == enemy_speed(extra as int),
{
    let edge = if horizontal_edge {
        if far_side {
            SpawnEdge::Top
        } else {
            SpawnEdge::Bottom
        }
    } else {
        if far_side {
            SpawnEdge::Right
        } else {
            SpawnEdge::Left
        }
    };
    EnemySpawn { edge, speed: MoveSpeed((80 + extra) * 1000) }
}

/// Calls `rand::thread_rng`, which hands out the calling thread's generator.
#[verifier::external_body]
fn thread_generator() -> ThreadRng {
    rand::thread_rng()
}

/// Calls `Rng::gen_ratio`: a coin that falls on `true` in `numerator` out of
/// `denominator` tosses. Nothing is known of how it falls. The call panics
/// on a denominator of zero and on odds above one, which `requires` leaves
/// out.
#[verifier::external_body]
fn toss(rng: &mut ThreadRng, numerator: u32, denominator: u32) -> bool
    requires
        0 < denominator,
        numerator <= denominator,
{
    rng.gen_ratio(numerator, denominator)
}

/// Calls `Rng::gen_range` on the inclusive range from `low` to `high`.
/// Trusted: the value drawn lies in that range. The call panics on an empty
/// range, which `requires` leaves out.
#[verifier::external_body]
fn draw_between(rng: &mut ThreadRng, low: u64, high: u64) -> (value: u64)
    requires
        low <= high,
    ensures
        low <= value <= high,
{
    rng.gen_range(low..=high)
}

/// One spawner tick at time `now`, the tick before it having been at
/// `previous`. Within one whole second nothing is spawned. When the whole
/// second has changed, `spawn_count` enemies are asked for, each on an edge
/// picked by two fair coins and with a speed of 80 units plus a random
/// addition between the two bounds that hold at that second of the session.
pub fn spawn_enemy(previous: u128, now: u128, game_time: &GameTime) -> (spawns: Vec<EnemySpawn>)
    requires
        game_time.0 <= now,
    ensures
        !second_changed(previous as int, now as int) ==> spawns@.len() == 0,
        second_changed(previous as int, now as int) ==> {
            &&& spawns@.len() == spawn_count(session_seconds(*game_time, now as int))
            &&& forall|i: int|
                0 <= i < spawns@.len() ==> speed_allowed(
                    #[trigger] spawns@[i],
                    session_seconds(*game_time, now as int),
                )
        },
{
    let mut spawns: Vec<EnemySpawn> = Vec::new();
    if !is_new_second(previous, now) {
        return spawns;
    }
    let seconds = game_time.elapsed_seconds(now);
    let count = enemies_per_spawn(seconds);
    let (low, high) = speed_bounds(seconds);
    let mut rng = thread_generator();
    let mut made: u128 = 0;
    while made < count
        invariant
            made <= count,
            spawns@.len() == made,
            low == speed_lower_bound(seconds as int),
            high == speed_upper_bound(seconds as int),
            low <= high <= 200,
            forall|i: int| 0 <= i < spawns@.len() ==> speed_allowed(#[trigger] spawns@[i], seconds as int),
        decreases count - made,
    {
        let horizontal_edge = toss(&mut rng, 1, 2);
        let far_side = toss(&mut rng, 1, 2);
        let extra = draw_between(&mut rng, low, high);
        let spawn = enemy_spawn(horizontal_edge, far_side, extra);
        assert(speed_allowed(spawn, seconds as int)) by {
            assert(spawn.speed.0 == enemy_speed(extra as int));
        }
        spawns.push(spawn);
        made += 1;
    }
    spawns
}


/// Kills, experience and level of a session, as plain numbers.
pub struct Progress {
    pub killed: nat,
    pub xp: nat,
    pub level: nat,
}

/// Experience that completes `level`: twelve, and three more per level.
pub open spec fn required_xp(level: int) -> int {
    12 + level * 3
}

/// Whether the experience lies below the threshold of the level, as it does
/// between any two kills.
pub open spec fn accumulating(xp: XP, level: Level) -> bool {
    xp.0 < required_xp(level.0 as int)
}

/// The progress of a session that has just started.
pub open spec fn fresh_progress() -> Progress {
    Progress { killed: 0, xp: 0, level: 1 }
}

/// Progress after one more kill: one more on the counter, and either one more
/// experience or, where that reaches the threshold, the next level with no
/// experience.
pub open spec fn after_kill(progress: Progress) -> Progress {
    if progress.xp + 1 >= required_xp(progress.level as int) {
        Progress { killed: progress.killed + 1, xp: 0, level: progress.level + 1 }
    } else {
        Progress { killed: progress.killed + 1, xp: progress.xp + 1, level: progress.level }
    }
}

/// Progress after `kills` more kills.
pub open spec fn after_kills(progress: Progress, kills: nat) -> Progress
    decreases kills,
{
    if kills == 0 {
        progress
    } else {
        after_kill(after_kills(progress, (kills - 1) as nat))
    }
}

/// The threshold grows by three with every level, so it is strictly
/// increasing in the level.
pub proof fn lemma_required_xp_increasing(lower: int, higher: int)
    requires
        lower < higher,
    ensures
        required_xp(lower) < required_xp(higher),
        required_xp(lower + 1) == required_xp(lower) + 3,
{
}

/// Kills never lower the level nor the kill counter, the counter grows by
/// exactly the number of kills, the level by at most that, and the
/// experience stays below the threshold where it was below it.
pub proof fn lemma_after_kills(progress: Progress, kills: nat)
    ensures
        after_kills(progress, kills).killed == progress.killed + kills,
        progress.level <= after_kills(progress, kills).level <= progress.level + kills,
        progress.xp < required_xp(progress.level as int) ==> after_kills(progress, kills).xp
            < required_xp(after_kills(progress, kills).level as int),
    decreases kills,
{
    if kills > 0 {
        lemma_after_kills(progress, (kills - 1) as nat);
    }
}

/// While the kills stay below the threshold of the level, each one is one
/// experience: after `kills` kills from no experience, the counter has grown
/// by `kills`, the experience is `kills` and the level has not changed.
pub proof fn lemma_kills_below_threshold(killed: nat, level: nat, kills: nat)
    requires
        kills < required_xp(level as int),
    ensures
        after_kills(Progress { killed, xp: 0, level }, kills) == (Progress {
            killed: killed + kills,
            xp: kills,
            level,
        }),
    decreases kills,
{
    if kills > 0 {
        lemma_kills_below_threshold(killed, level, (kills - 1) as nat);
    }
}

/// The kill that reaches the threshold opens the next level with no
/// experience.
pub proof fn lemma_threshold_kill_levels_up(killed: nat, level: nat)
    ensures
        after_kills(Progress { killed, xp: 0, level }, required_xp(level as int) as nat) == (
        Progress { killed: killed + required_xp(level as int) as nat, xp: 0, level: level + 1 }),
{
    let last = (required_xp(level as int) - 1) as nat;
    lemma_kills_below_threshold(killed, level, last);
    assert(after_kills(Progress { killed, xp: 0, level }, (last + 1) as nat) == after_kill(
        after_kills(Progress { killed, xp: 0, level }, last),
    ));
}

/// Replaying a log of kills is replaying its parts one after the other.
pub proof fn lemma_after_kills_split(progress: Progress, first: nat, second: nat)
    ensures
        after_kills(progress, first + second) == after_kills(after_kills(progress, first), second),
    decreases second,
{
    if second > 0 {
        lemma_after_kills_split(progress, first, (second - 1) as nat);
        assert((first + second - 1) as nat == first + (second - 1) as nat);
    }
}

/// Replay is repeatable: the same log of kills, applied to the same state,
/// ends in the same kill counter, experience and level.
pub proof fn lemma_replay_repeatable(first: Progress, second: Progress, kills: nat, again: nat)
    requires
        first == second,
        kills == again,
    ensures
        after_kills(first, kills) == after_kills(second, again),
{
}

/// The experience that completes `level`, for every level that can be
/// stored.
pub fn required_for_level(level: &Level) -> (required: u128)
    ensures
        required == required_xp(level.0 as int),
{
    12 + (level.0 as u128) * 3
}

/// One kill's worth of experience. Returns whether it completed the level, in
/// which case the level has risen by one and the experience is back at zero.
/// All that is asked beyond the state's validity is that one more experience
/// can be stored.
pub fn gain_xp(xp: &mut XP, level: &mut Level) -> (level_up: bool)
    requires
        accumulating(*old(xp), *old(level)),
        old(xp).0 < usize::MAX,
    ensures
        level_up == (old(xp).0 + 1 >= required_xp(old(level).0 as int)),
        level_up ==> final(xp).0 == 0 && final(level).0 == old(level).0 + 1,
        !level_up ==> final(xp).0 == old(xp).0 + 1 && final(level).0 == old(level).0,
        accumulating(*final(xp), *final(level)),
        level_up == (after_kill(
            Progress { killed: 0, xp: old(xp).0 as nat, level: old(level).0 as nat },
        ).level > old(level).0),
        final(xp).0 == after_kill(
            Progress { killed: 0, xp: old(xp).0 as nat, level: old(level).0 as nat },
        ).xp,
        final(level).0 == after_kill(
            Progress { killed: 0, xp: old(xp).0 as nat, level: old(level).0 as nat },
        ).level,
{
    let required = required_for_level(level);
    xp.0 += 1;
    if xp.0 as u128 >= required {
        xp.0 = 0;
        level.0 += 1;
        true
    } else {
        false
    }
}

/// Turns `events` kills into experience, one by one. Afterwards experience
/// and level are those of `after_kills`; the upgrade screen is requested
/// exactly when at least one level was completed. All that is asked beyond
/// the state's validity is that the experience could be stored even if no
/// level were completed.
pub fn render_xp_bar(events: usize, xp: &mut XP, level: &mut Level) -> (next: Option<AppState>)
    requires
        accumulating(*old(xp), *old(level)),
        old(xp).0 + events <= usize::MAX,
    ensures
        final(xp).0 == after_kills(
            Progress { killed: 0, xp: old(xp).0 as nat, level: old(level).0 as nat },
            events as nat,
        ).xp,
        final(level).0 == after_kills(
            Progress { killed: 0, xp: old(xp).0 as nat, level: old(level).0 as nat },
            events as nat,
        ).level,
        accumulating(*final(xp), *final(level)),
        next == if final(level).0 > old(level).0 {
            next_state(AppState::InGame, ModeInput::LevelUp)
        } else {
            None::<AppState>
        },
{
    let ghost start = Progress { killed: 0, xp: xp.0 as nat, level: level.0 as nat };
    let mut next: Option<AppState> = None;
    let mut done: usize = 0;
    while done < events
        invariant
            done <= events,
            start == (Progress { killed: 0, xp: old(xp).0 as nat, level: old(level).0 as nat }),
            xp.0 + (events - done) <= usize::MAX,
            xp.0 == after_kills(start, done as nat).xp,
            level.0 == after_kills(start, done as nat).level,
            accumulating(*xp, *level),
            old(level).0 <= level.0,
            next == if level.0 > old(level).0 {
                Some(AppState::SelectUpgrade)
            } else {
                None::<AppState>
            },
        decreases events - done,
    {
        if gain_xp(xp, level) {
            next = Some(AppState::SelectUpgrade);
        }
        done += 1;
    }
    next
}

/// Width of the experience bar in thousandths of a unit: twice the viewport's
/// width for each completed part of the level, rounded down.
pub open spec fn bar_width(xp: XP, level: Level, viewport_width: int) -> int {
    2 * xp.0 * viewport_width / required_xp(level.0 as int)
}

/// Width of the experience bar for a viewport of `viewport_width`
/// thousandths of a unit.
pub fn xp_bar_width(xp: &XP, level: &Level, viewport_width: u32) -> (width: u64)
    requires
        accumulating(*xp, *level),
    ensures
        width == bar_width(*xp, *level, viewport_width as int),
        width <= 2 * viewport_width,
{
    let required = required_for_level(level);
    assert(2 * xp.0 * viewport_width <= 2 * 0xFFFF_FFFF_FFFF_FFFF * 0xFFFF_FFFF) by (nonlinear_arith)
        requires
            xp.0 <= 0xFFFF_FFFF_FFFF_FFFF,
            viewport_width <= 0xFFFF_FFFF,
    ;
    assert(2 * (xp.0 as u128) <= 2 * 0xFFFF_FFFF_FFFF_FFFF);
    let filled: u128 = 2 * (xp.0 as u128) * (viewport_width as u128);
    let width: u128 = filled / required;
    assert(width <= 2 * viewport_width) by (nonlinear_arith)
        requires
            width == filled / required,
            filled == 2 * xp.0 * viewport_width,
            xp.0 < required,
    ;
    width as u64
}

/// What the player starts a session with.
#[derive(Debug, Clone, Copy, PartialEq, Eq, Structural)]
pub struct PlayerBundle {
    pub xp: XP,
    pub level: Level,
    pub move_speed: MoveSpeed,
    pub bullet_speed: BulletSpeed,
    pub fire_rate: FireRate,
    pub target_count: TargetCount,
}

/// The player of a new session: level 1 with no experience, 100 units per
/// second, bullets at 250 units per second, 60 shots per minute at one target.
pub open spec fn new_player() -> PlayerBundle {
    PlayerBundle {
        xp: XP(0),
        level: Level(1),
        move_speed: MoveSpeed(100_000),
        bullet_speed: BulletSpeed(250_000),
        fire_rate: FireRate(60_000),
        target_count: TargetCount(1),
    }
}

/// Session initialisation at time `now`: the session clock starts, the kill
/// counter is reset, and a new player is handed out together with the mode
/// that follows `Start`.
pub fn setup_game(now: u128, game_time: &mut GameTime, killed: &mut Killed) -> (started: (
    PlayerBundle,
    AppState,
))
    ensures
        final(game_time).0 == now,
        final(killed).0 == 0,
        started.0 == new_player(),
        Some(started.1) == next_state(AppState::Start, ModeInput::SessionReady),
        accumulating(started.0.xp, started.0.level),
{
    game_time.0 = now;
    killed.0 = 0;
    let player = PlayerBundle {
        xp: XP(0),
        level: Level(1),
        move_speed: MoveSpeed(100_000),
        bullet_speed: BulletSpeed(250_000),
        fire_rate: FireRate(60_000),
        target_count: TargetCount(1),
    };
    (player, AppState::InGame)
}

} // verus!
