//! The tags and the values that an entity of the simulation carries.
//!
//! Speeds and rates are fixed-point numbers in thousandths of a unit, so that
//! every rule on them is exact integer arithmetic.

use vstd::prelude::*;

verus! {

/// How many stored steps make one whole unit of a speed or a rate.
pub const STAT_SCALE: u64 = 1000;

/// Tag of everything that lives for one session and is removed when it ends.
#[derive(Debug, Clone, Copy, PartialEq, Eq, Structural)]
pub struct GameEntity;

/// Tag of the one player entity.
#[derive(Debug, Clone, Copy, PartialEq, Eq, Structural)]
pub struct Player;

/// Tag of an enemy.
#[derive(Debug, Clone, Copy, PartialEq, Eq, Structural)]
pub struct Enemy;

/// Experience gathered since the last level-up.
#[derive(Debug, Clone, Copy, PartialEq, Eq, Structural)]
pub struct XP(pub usize);

/// The player's level; a session starts at level 1.
#[derive(Debug, Clone, Copy, PartialEq, Eq, Structural)]
pub struct Level(pub usize);

/// Tag of a bullet.
#[derive(Debug, Clone, Copy, PartialEq, Eq, Structural)]
pub struct Bullet;

/// Shots per minute, in thousandths of a shot.
#[derive(Debug, Clone, Copy, PartialEq, Eq, Structural)]
pub struct FireRate(pub u64);

/// Speed given to a new bullet, in thousandths of a unit per second.
#[derive(Debug, Clone, Copy, PartialEq, Eq, Structural)]
pub struct BulletSpeed(pub u64);

/// How many enemies one fire event shoots at.
#[derive(Debug, Clone, Copy, PartialEq, Eq, Structural)]
pub struct TargetCount(pub usize);

/// Speed of an entity, in thousandths of a unit per second.
#[derive(Debug, Clone, Copy, PartialEq, Eq, Structural)]
pub struct MoveSpeed(pub u64);

/// The identity of the enemy that a bullet homes toward. It is a weak
/// reference: the enemy may be gone already.
#[derive(Debug, Clone, Copy, PartialEq, Eq, Structural)]
pub struct AttackTarget(pub u64);

/// A button, carrying the name of the action that a click on it requests.
#[derive(Debug, Clone, Copy)]
pub struct UIButton(pub &'static str);

/// Tag of the game-over screen.
#[derive(Debug, Clone, Copy, PartialEq, Eq, Structural)]
pub struct GameOverUI;

/// Tag of the upgrade screen.
#[derive(Debug, Clone, Copy, PartialEq, Eq, Structural)]
pub struct SelectUpgradeUI;

/// Tag of the tutorial screen.
#[derive(Debug, Clone, Copy, PartialEq, Eq, Structural)]
pub struct TutorialUI;

/// Tag of the experience bar.
#[derive(Debug, Clone, Copy, PartialEq, Eq, Structural)]
pub struct XPBar;

/// Tag of the text that shows the player's stats.
#[derive(Debug, Clone, Copy, PartialEq, Eq, Structural)]
pub struct PlayerProps;

/// Tag of the panel that shows the run's statistics.
#[derive(Debug, Clone, Copy, PartialEq, Eq, Structural)]
pub struct StatsUI;

/// Tag of the text that shows the number of kills.
#[derive(Debug, Clone, Copy, PartialEq, Eq, Structural)]
pub struct StatsUIKill;

/// Tag of the text that shows the elapsed time of the run.
#[derive(Debug, Clone, Copy, PartialEq, Eq, Structural)]
pub struct StatsUITime;

/// Tag of the background music.
#[derive(Debug, Clone, Copy, PartialEq, Eq, Structural)]
pub struct BGM;

} // verus!
