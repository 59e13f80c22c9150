//! Movement and steering decisions, and the collision resolver.
//!
//! Positions live with the caller. What is decided here is which way the
//! player goes, which enemy a bullet still homes toward, and what a contact
//! between two entities leads to.

use vstd::prelude::*;

use crate::components::AttackTarget;
use crate::states::{next_state, AppState, ModeInput};

verus! {

/// A direction with whole components. It is not scaled to unit length, so a
/// diagonal is longer than a step along one axis.
#[derive(Debug, Clone, Copy, PartialEq, Eq, Structural)]
pub struct Direction {
    pub x: i8,
    pub y: i8,
}

/// The directional keys that are held down, arrows and letters alike.
#[derive(Debug, Clone, Copy, PartialEq, Eq, Structural)]
pub struct DirectionKeys {
    pub up: bool,
    pub w: bool,
    pub down: bool,
    pub s: bool,
    pub right: bool,
    pub d: bool,
    pub left: bool,
    pub a: bool,
}

/// The sign of a number.
#[derive(Debug, Clone, Copy, PartialEq, Eq, Structural)]
pub enum Sign {
    Negative,
    Zero,
    Positive,
}

/// One if the condition holds, zero otherwise.
pub open spec fn unit(condition: bool) -> int {
    if condition {
        1
    } else {
        0
    }
}

/// The direction that the held keys ask for: one step up for "up" or "w"
/// less one for "down" or "s", one step right for "right" or "d" less one
/// for "left" or "a".
pub open spec fn key_direction(keys: DirectionKeys) -> Direction {
    Direction {
        x: (unit(keys.right || keys.d) - unit(keys.left || keys.a)) as i8,
        y: (unit(keys.up || keys.w) - unit(keys.down || keys.s)) as i8,
    }
}

/// Whether a direction leads nowhere.
pub open spec fn is_still(direction: Direction) -> bool {
    direction.x == 0 && direction.y == 0
}

/// The direction that a mouse motion asks for. The vertical axis of the
/// screen points down, so a motion toward smaller values goes up.
pub open spec fn motion_direction(motion: (Sign, Sign)) -> Direction {
    Direction {
        x: match motion.0 {
            Sign::Positive => 1i8,
            Sign::Negative => -1i8,
            Sign::Zero => 0i8,
        },
        y: match motion.1 {
            Sign::Negative => 1i8,
            Sign::Positive => -1i8,
            Sign::Zero => 0i8,
        },
    }
}

/// The steps that a run of mouse motions asks for: one per motion, up to the
/// first motion that leads nowhere, which ends the run.
pub open spec fn motion_steps(motions: Seq<(Sign, Sign)>) -> Seq<Direction>
    decreases motions.len(),
{
    if motions.len() == 0 || is_still(motion_direction(motions[0])) {
        Seq::empty()
    } else {
        seq![motion_direction(motions[0])] + motion_steps(motions.skip(1))
    }
}

/// The sign of `value`, as a whole number.
pub open spec fn signum(value: int) -> int {
    if value > 0 {
        1
    } else if value < 0 {
        -1
    } else {
        0
    }
}

/// The index of the first of `enemies` whose identity is that of `target`.
pub open spec fn position_of(target: AttackTarget, enemies: Seq<u64>) -> Option<int> {
    enemies.index_of_first(target.0)
}

/// The player's step for one tick: `None` where no key, or keys that cancel
/// each other, are held, so that the player neither moves nor turns;
/// otherwise the direction of the held keys.
pub fn move_player(keys: &DirectionKeys) -> (step: Option<Direction>)
    ensures
        step == if is_still(key_direction(*keys)) {
            None
        } else {
            Some(key_direction(*keys))
        },
{
    let mut x: i8 = 0;
    let mut y: i8 = 0;
    if keys.up || keys.w {
        y += 1;
    }
    if keys.down || keys.s {
        y -= 1;
    }
    if keys.right || keys.d {
        x += 1;
    }
    if keys.left || keys.a {
        x -= 1;
    }
    if x == 0 && y == 0 {
        None
    } else {
        Some(Direction { x, y })
    }
}

/// The direction of one mouse motion.
pub fn mouse_direction(motion: (Sign, Sign)) -> (direction: Direction)
    ensures
        direction == motion_direction(motion),
{
    let x: i8 = match motion.0 {
        Sign::Positive => 1,
        Sign::Negative => -1,
        Sign::Zero => 0,
    };
    let y: i8 = match motion.1 {
        Sign::Negative => 1,
        Sign::Positive => -1,
        Sign::Zero => 0,
    };
    Direction { x, y }
}

/// The player's steps for the mouse motions of one tick. While the button is
/// not held there are none. While it is, each motion gives one step, until a
/// motion leads nowhere: that one and all after it are dropped.
pub fn move_player_with_mouse(pressed: bool, motions: &Vec<(Sign, Sign)>) -> (steps: Vec<
    Direction,
>)
    ensures
        steps@ == if pressed {
            motion_steps(motions@)
        } else {
            Seq::<Direction>::empty()
        },
{
    let mut steps: Vec<Direction> = Vec::new();
    if !pressed {
        return steps;
    }
    let mut i: usize = 0;
    proof {
        assert(motions@.skip(0) =~= motions@);
        assert(steps@ + motion_steps(motions@) =~= motion_steps(motions@));
    }
    while i < motions.len()
        invariant
            i <= motions@.len(),
            steps@ + motion_steps(motions@.skip(i as int)) == motion_steps(motions@),
        ensures
            steps@ == motion_steps(motions@),
        decreases motions@.len() - i,
    {
        let direction = mouse_direction(motions[i]);
        let ghost rest = motions@.skip(i as int);
        assert(rest[0] == motions@[i as int]);
        if direction.x == 0 && direction.y == 0 {
            assert(motion_steps(rest) == Seq::<Direction>::empty());
            assert(steps@ + Seq::<Direction>::empty() =~= steps@);
            break ;
        }
        assert(rest.skip(1) =~= motions@.skip(i + 1));
        assert(steps@.push(direction) + motion_steps(rest.skip(1)) =~= steps@ + motion_steps(rest));
        steps.push(direction);
        i += 1;
    }
    proof {
        if i == motions@.len() {
            assert(motion_steps(motions@.skip(i as int)) == Seq::<Direction>::empty());
            assert(steps@ + Seq::<Direction>::empty() =~= steps@);
        }
    }
    steps
}

/// The direction, one step at most along each axis, that leads from
/// `source` toward `target`.
pub fn move_to(source: (i64, i64), target: (i64, i64)) -> (direction: Direction)
    ensures
        direction.x == signum(target.0 - source.0),
        direction.y == signum(target.1 - source.1),
{
    let mut x: i8 = 0;
    let mut y: i8 = 0;
    if source.0 > target.0 {
        x -= 1;
    }
    if source.0 < target.0 {
        x += 1;
    }
    if source.1 > target.1 {
        y -= 1;
    }
    if source.1 < target.1 {
        y += 1;
    }
    Direction { x, y }
}

/// Looks up a bullet's target among the living enemies. `Some` with the
/// place of the first enemy of that identity: the bullet turns toward it.
/// `None` where the enemy is gone: the bullet keeps its last heading.
pub fn move_bullet(target: &AttackTarget, enemies: &Vec<u64>) -> (found: Option<usize>)
    ensures
        match found {
            Some(i) => position_of(*target, enemies@) == Some(i as int),
            None => position_of(*target, enemies@).is_none(),
        },
        found.is_some() <==> enemies@.contains(target.0),
        found matches Some(i) ==> i < enemies@.len() && enemies@[i as int] == target.0,
{
    let mut i: usize = 0;
    while i < enemies.len()
        invariant
            i <= enemies@.len(),
            forall|j: int| 0 <= j < i ==> enemies@[j] != target.0,
        decreases enemies@.len() - i,
    {
        if enemies[i] == target.0 {
            proof {
                assert(enemies@.contains(target.0));
                enemies@.index_of_first_ensures(target.0);
            }
            return Some(i);
        }
        i += 1;
    }
    proof {
        enemies@.index_of_first_ensures(target.0);
    }
    None
}


/// Which of the three role tags an entity carries.
#[derive(Debug, Clone, Copy, PartialEq, Eq, Structural)]
pub struct Tags {
    pub bullet: bool,
    pub enemy: bool,
    pub player: bool,
}

/// The role of an entity as the collision resolver sees it.
#[derive(Debug, Clone, Copy, PartialEq, Eq, Structural)]
pub enum Role {
    Bullet,
    Enemy,
    Player,
}

/// Two entities that touch, each with its identity and its tags.
#[derive(Debug, Clone, Copy, PartialEq, Eq, Structural)]
pub struct Contact {
    pub entity1: u64,
    pub tags1: Tags,
    pub entity2: u64,
    pub tags2: Tags,
}

/// What a contact leads to.
#[derive(Debug, Clone, Copy, PartialEq, Eq, Structural)]
pub enum Outcome {
    /// A bullet hit an enemy: both are removed and a kill is counted.
    Kill { bullet: u64, enemy: u64 },
    /// An enemy reached the player: the session is over.
    GameOver,
    /// Anything else is dropped without a trace.
    Ignored,
}

/// What the contacts of one tick lead to, taken together.
pub struct Resolution {
    /// The entities to remove, bullet before enemy for each kill, in the
    /// order of the contacts.
    pub despawned: Vec<u64>,
    /// How many kill events to emit.
    pub kills: usize,
    /// The game-over mode, where an enemy reached the player.
    pub next: Option<AppState>,
}

/// The one role that the resolver sees in an entity: a bullet tag wins over
/// an enemy tag, and an enemy tag over a player tag.
pub open spec fn role_of(tags: Tags) -> Option<Role> {
    if tags.bullet {
        Some(Role::Bullet)
    } else if tags.enemy {
        Some(Role::Enemy)
    } else if tags.player {
        Some(Role::Player)
    } else {
        None
    }
}

/// The outcome of one contact, whichever way round the two entities come.
pub open spec fn outcome_of(contact: Contact) -> Outcome {
    match (role_of(contact.tags1), role_of(contact.tags2)) {
        (Some(Role::Bullet), Some(Role::Enemy)) => Outcome::Kill {
            bullet: contact.entity1,
            enemy: contact.entity2,
        },
        (Some(Role::Enemy), Some(Role::Bullet)) => Outcome::Kill {
            bullet: contact.entity2,
            enemy: contact.entity1,
        },
        (Some(Role::Enemy), Some(Role::Player)) => Outcome::GameOver,
        (Some(Role::Player), Some(Role::Enemy)) => Outcome::GameOver,
        _ => Outcome::Ignored,
    }
}

/// The entities that one outcome removes.
pub open spec fn removed_by(outcome: Outcome) -> Seq<u64> {
    match outcome {
        Outcome::Kill { bullet, enemy } => seq![bullet, enemy],
        _ => Seq::empty(),
    }
}

/// The entities that the contacts remove, in order.
pub open spec fn removed(contacts: Seq<Contact>) -> Seq<u64>
    decreases contacts.len(),
{
    if contacts.len() == 0 {
        Seq::empty()
    } else {
        removed(contacts.drop_last()) + removed_by(outcome_of(contacts.last()))
    }
}

/// How many of the contacts are kills.
pub open spec fn kill_count(contacts: Seq<Contact>) -> nat
    decreases contacts.len(),
{
    if contacts.len() == 0 {
        0
    } else {
        kill_count(contacts.drop_last()) + if outcome_of(contacts.last()) is Kill {
            1nat
        } else {
            0nat
        }
    }
}

/// Whether an enemy reached the player in one of the contacts.
pub open spec fn player_hit(contacts: Seq<Contact>) -> bool {
    exists|i: int| 0 <= i < contacts.len() && outcome_of(#[trigger] contacts[i]) == Outcome::GameOver
}

/// The contact with its two entities exchanged.
pub open spec fn swapped(contact: Contact) -> Contact {
    Contact {
        entity1: contact.entity2,
        tags1: contact.tags2,
        entity2: contact.entity1,
        tags2: contact.tags1,
    }
}

/// The resolver does not care in which order a contact names its entities.
pub proof fn lemma_outcome_symmetric(contact: Contact)
    ensures
        outcome_of(swapped(contact)) == outcome_of(contact),
{
}

/// There are never more kills than contacts, and each kill removes two
/// entities.
pub proof fn lemma_kills_remove_pairs(contacts: Seq<Contact>)
    ensures
        kill_count(contacts) <= contacts.len(),
        removed(contacts).len() == 2 * kill_count(contacts),
    decreases contacts.len(),
{
    if contacts.len() > 0 {
        lemma_kills_remove_pairs(contacts.drop_last());
    }
}

/// The role that the resolver sees in an entity with these tags.
pub fn role(tags: &Tags) -> (seen: Option<Role>)
    ensures
        seen == role_of(*tags),
{
    if tags.bullet {
        Some(Role::Bullet)
    } else if tags.enemy {
        Some(Role::Enemy)
    } else if tags.player {
        Some(Role::Player)
    } else {
        None
    }
}

/// Resolves one contact: a bullet and an enemy make a kill, an enemy and
/// the player end the session, everything else is ignored.
pub fn resolve(contact: &Contact) -> (outcome: Outcome)
    ensures
        outcome == outcome_of(*contact),
{
    match (role(&contact.tags1), role(&contact.tags2)) {
        (Some(Role::Bullet), Some(Role::Enemy)) => Outcome::Kill {
            bullet: contact.entity1,
            enemy: contact.entity2,
        },
        (Some(Role::Enemy), Some(Role::Bullet)) => Outcome::Kill {
            bullet: contact.entity2,
            enemy: contact.entity1,
        },
        (Some(Role::Enemy), Some(Role::Player)) => Outcome::GameOver,
        (Some(Role::Player), Some(Role::Enemy)) => Outcome::GameOver,
        _ => Outcome::Ignored,
    }
}

/// Resolves the contacts of one tick, in order. Each kill removes its bullet
/// and its enemy and emits one kill event; the game-over mode is requested
/// exactly when an enemy reached the player, and that removes nothing.
pub fn bullet_collision(contacts: &Vec<Contact>) -> (resolution: Resolution)
    ensures
        resolution.despawned@ == removed(contacts@),
        resolution.kills == kill_count(contacts@),
        resolution.next == if player_hit(contacts@) {
            next_state(AppState::InGame, ModeInput::PlayerHit)
        } else {
            None::<AppState>
        },
{
    let mut despawned: Vec<u64> = Vec::new();
    let mut kills: usize = 0;
    let mut next: Option<AppState> = None;
    let mut i: usize = 0;
    while i < contacts.len()
        invariant
            i <= contacts@.len(),
            despawned@ == removed(contacts@.take(i as int)),
            kills == kill_count(contacts@.take(i as int)),
            kills <= i,
            next == if player_hit(contacts@.take(i as int)) {
                Some(AppState::GameOver)
            } else {
                None::<AppState>
            },
        decreases contacts@.len() - i,
    {
        let ghost before = contacts@.take(i as int);
        let ghost upto = contacts@.take(i + 1);
        proof {
            assert(upto.drop_last() =~= before);
            assert(upto.last() == contacts@[i as int]);
            lemma_kills_remove_pairs(upto);
            assert(player_hit(upto) == (player_hit(before) || outcome_of(contacts@[i as int])
                == Outcome::GameOver)) by {
                if player_hit(before) {
                    let k = choose|k: int|
                        0 <= k < before.len() && outcome_of(#[trigger] before[k])
                            == Outcome::GameOver;
                    assert(upto[k] == before[k]);
                }
                if outcome_of(contacts@[i as int]) == Outcome::GameOver {
                    assert(upto[i as int] == contacts@[i as int]);
                }
                if player_hit(upto) {
                    let k = choose|k: int|
                        0 <= k < upto.len() && outcome_of(#[trigger] upto[k]) == Outcome::GameOver;
                    if k < i {
                        assert(before[k] == upto[k]);
                    }
                }
            }
        }
        match resolve(&contacts[i]) {
            Outcome::Kill { bullet, enemy } => {
                despawned.push(bullet);
                despawned.push(enemy);
                kills += 1;
                assert(despawned@ =~= removed(before) + seq![bullet, enemy]);
            },
            Outcome::GameOver => {
                next = Some(AppState::GameOver);
                assert(despawned@ =~= removed(before) + Seq::<u64>::empty());
            },
            Outcome::Ignored => {
                assert(despawned@ =~= removed(before) + Seq::<u64>::empty());
            },
        }
        i += 1;
    }
    assert(contacts@.take(i as int) =~= contacts@);
    Resolution { despawned, kills, next }
}

} // verus!
