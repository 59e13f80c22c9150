//! The events that the systems exchange, and what the progression events do
//! to the kill counter and to the player's stats.

use vstd::prelude::*;

use crate::assets::Killed;
use crate::components::{BulletSpeed, FireRate, MoveSpeed, TargetCount};

verus! {

/// One experience point was earned.
#[derive(Debug, Clone, Copy, PartialEq, Eq, Structural)]
pub struct XpIncEvent;

/// A bullet killed an enemy.
#[derive(Debug, Clone, Copy, PartialEq, Eq, Structural)]
pub struct KillEvent;

/// The move-speed upgrade was chosen.
#[derive(Debug, Clone, Copy, PartialEq, Eq, Structural)]
pub struct PlayerMoveSpeedUpEvent;

/// The fire-rate upgrade was chosen.
#[derive(Debug, Clone, Copy, PartialEq, Eq, Structural)]
pub struct PlayerFireRateUpEvent;

/// The bullet-speed upgrade was chosen.
#[derive(Debug, Clone, Copy, PartialEq, Eq, Structural)]
pub struct PlayerBulletSpeedUpEvent;

/// The target-count upgrade was chosen.
#[derive(Debug, Clone, Copy, PartialEq, Eq, Structural)]
pub struct PlayerTargetCountUpEvent;

/// A stat of the player changed; what shows the stats has to refresh.
#[derive(Debug, Clone, Copy, PartialEq, Eq, Structural)]
pub struct PropsUpdateEvent;

/// The tutorial was dismissed; the flag says whether music is wanted.
#[derive(Debug, Clone, Copy, PartialEq, Eq, Structural)]
pub struct StartEvent(pub bool);

/// The upgrades that a completed level can offer.
#[derive(Debug, Clone, Copy, PartialEq, Eq, Structural)]
pub enum Upgrade {
    MoveSpeed,
    FireRate,
    BulletSpeed,
    TargetCount,
}

/// The stats of the player.
#[derive(Debug, Clone, Copy, PartialEq, Eq, Structural)]
pub struct PlayerStats {
    pub move_speed: MoveSpeed,
    pub fire_rate: FireRate,
    pub bullet_speed: BulletSpeed,
    pub target_count: TargetCount,
}

/// The stats of the player as unbounded numbers.
pub struct StatValues {
    pub move_speed: int,
    pub fire_rate: int,
    pub bullet_speed: int,
    pub target_count: int,
}

impl View for PlayerStats {
    type V = StatValues;

    open spec fn view(&self) -> StatValues {
        StatValues {
            move_speed: self.move_speed.0 as int,
            fire_rate: self.fire_rate.0 as int,
            bullet_speed: self.bullet_speed.0 as int,
            target_count: self.target_count.0 as int,
        }
    }
}

/// A stored speed or rate times 1.05, rounded down to a stored step.
pub open spec fn raised(value: int) -> int {
    value * 21 / 20
}

/// A stored speed or rate after `times` upgrades.
pub open spec fn raised_times(value: int, times: nat) -> int
    decreases times,
{
    if times == 0 {
        value
    } else {
        raised(raised_times(value, (times - 1) as nat))
    }
}

/// The stats after one upgrade: the stat it names is raised, the others stay.
pub open spec fn upgraded(stats: StatValues, upgrade: Upgrade) -> StatValues {
    match upgrade {
        Upgrade::MoveSpeed => StatValues { move_speed: raised(stats.move_speed), ..stats },
        Upgrade::FireRate => StatValues { fire_rate: raised(stats.fire_rate), ..stats },
        Upgrade::BulletSpeed => StatValues { bullet_speed: raised(stats.bullet_speed), ..stats },
        Upgrade::TargetCount => StatValues { target_count: stats.target_count + 1, ..stats },
    }
}

/// Whether every stat can be stored.
pub open spec fn storable(stats: StatValues) -> bool {
    &&& 0 <= stats.move_speed <= u64::MAX
    &&& 0 <= stats.fire_rate <= u64::MAX
    &&& 0 <= stats.bullet_speed <= u64::MAX
    &&& 0 <= stats.target_count <= usize::MAX
}

/// Raising a value adds a twentieth of it, rounded down, so a value that is
/// not negative never falls.
pub proof fn lemma_raised(value: int)
    requires
        0 <= value,
    ensures
        raised(value) == value + value / 20,
        value <= raised(value),
{
}

/// Upgrades never lower a stat: more of them give at least as much.
pub proof fn lemma_raised_times_monotonic(value: int, fewer: nat, more: nat)
    requires
        0 <= value,
        fewer <= more,
    ensures
        value <= raised_times(value, fewer) <= raised_times(value, more),
    decreases more,
{
    if more > 0 {
        if fewer < more {
            lemma_raised_times_monotonic(value, fewer, (more - 1) as nat);
        } else {
            lemma_raised_times_monotonic(value, (fewer - 1) as nat, (more - 1) as nat);
        }
        lemma_raised(raised_times(value, (more - 1) as nat));
    }
}

/// Two upgrades give the same stats in either order.
pub proof fn lemma_upgrades_commute(stats: StatValues, first: Upgrade, second: Upgrade)
    ensures
        upgraded(upgraded(stats, first), second) == upgraded(upgraded(stats, second), first),
{
}

/// An upgrade changes the stat that it names and no other.
pub proof fn lemma_upgrade_touches_one_stat(stats: StatValues, upgrade: Upgrade)
    ensures
        upgrade != Upgrade::MoveSpeed ==> upgraded(stats, upgrade).move_speed == stats.move_speed,
        upgrade != Upgrade::FireRate ==> upgraded(stats, upgrade).fire_rate == stats.fire_rate,
        upgrade != Upgrade::BulletSpeed ==> upgraded(stats, upgrade).bullet_speed
            == stats.bullet_speed,
        upgrade != Upgrade::TargetCount ==> upgraded(stats, upgrade).target_count
            == stats.target_count,
        upgrade == Upgrade::MoveSpeed ==> upgraded(stats, upgrade).move_speed == raised(
            stats.move_speed,
        ),
        upgrade == Upgrade::FireRate ==> upgraded(stats, upgrade).fire_rate == raised(
            stats.fire_rate,
        ),
        upgrade == Upgrade::BulletSpeed ==> upgraded(stats, upgrade).bullet_speed == raised(
            stats.bullet_speed,
        ),
        upgrade == Upgrade::TargetCount ==> upgraded(stats, upgrade).target_count
            == stats.target_count + 1,
{
}

/// A stored value after `times` upgrades.
pub fn raise(value: u64, times: usize) -> (result: u64)
    requires
        raised_times(value as int, times as nat) <= u64::MAX,
    ensures
        result == raised_times(value as int, times as nat),
{
    let mut result: u64 = value;
    let mut done: usize = 0;
    while done < times
        invariant
            done <= times,
            result == raised_times(value as int, done as nat),
            raised_times(value as int, times as nat) <= u64::MAX,
        decreases times - done,
    {
        proof {
            lemma_raised(result as int);
            lemma_raised_times_monotonic(value as int, (done + 1) as nat, times as nat);
        }
        result = result + result / 20;
        done += 1;
    }
    result
}

impl PlayerStats {
    /// Applies one upgrade.
    pub fn apply(&mut self, upgrade: Upgrade)
        requires
            storable(upgraded(old(self)@, upgrade)),
        ensures
            final(self)@ == upgraded(old(self)@, upgrade),
    {
        proof {
            lemma_raised(self.move_speed.0 as int);
            lemma_raised(self.fire_rate.0 as int);
            lemma_raised(self.bullet_speed.0 as int);
        }
        match upgrade {
            Upgrade::MoveSpeed => {
                self.move_speed.0 = self.move_speed.0 + self.move_speed.0 / 20;
            },
            Upgrade::FireRate => {
                self.fire_rate.0 = self.fire_rate.0 + self.fire_rate.0 / 20;
            },
            Upgrade::BulletSpeed => {
                self.bullet_speed.0 = self.bullet_speed.0 + self.bullet_speed.0 / 20;
            },
            Upgrade::TargetCount => {
                self.target_count.0 = self.target_count.0 + 1;
            },
        }
    }
}

/// Applies the move-speed upgrade once per event and asks for one refresh of
/// the shown stats per event.
pub fn read_player_move_speed_up_event(events: usize, speed: &mut MoveSpeed) -> (updates: usize)
    requires
        raised_times(old(speed).0 as int, events as nat) <= u64::MAX,
    ensures
        final(speed).0 == raised_times(old(speed).0 as int, events as nat),
        updates == events,
{
    speed.0 = raise(speed.0, events);
    events
}

/// Applies the fire-rate upgrade once per event and asks for one refresh of
/// the shown stats per event.
pub fn read_player_fire_rate_up_event(events: usize, rate: &mut FireRate) -> (updates: usize)
    requires
        raised_times(old(rate).0 as int, events as nat) <= u64::MAX,
    ensures
        final(rate).0 == raised_times(old(rate).0 as int, events as nat),
        updates == events,
{
    rate.0 = raise(rate.0, events);
    events
}

/// Applies the bullet-speed upgrade once per event and asks for one refresh
/// of the shown stats per event.
pub fn read_player_bullet_speed_up_event(events: usize, speed: &mut BulletSpeed) -> (updates:
    usize)
    requires
        raised_times(old(speed).0 as int, events as nat) <= u64::MAX,
    ensures
        final(speed).0 == raised_times(old(speed).0 as int, events as nat),
        updates == events,
{
    speed.0 = raise(speed.0, events);
    events
}

/// Adds one target per event and asks for one refresh of the shown stats per
/// event.
pub fn read_player_target_count_up_event(events: usize, count: &mut TargetCount) -> (updates:
    usize)
    requires
        old(count).0 + events <= usize::MAX,
    ensures
        final(count).0 == old(count).0 + events,
        updates == events,
{
    count.0 = count.0 + events;
    events
}

/// Counts `events` kills and passes each on as one experience point.
pub fn read_kill_event(events: u32, killed: &mut Killed) -> (xp_events: u32)
    requires
        old(killed).0 + events <= u32::MAX,
    ensures
        final(killed).0 == old(killed).0 + events,
        xp_events == events,
{
    killed.0 = killed.0 + events;
    events
}

} // verus!
