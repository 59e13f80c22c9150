//! Targeting and fire control: when the player fires, and at which enemies.
//!
//! An enemy is seen here as a pair of two integers: a distance key, which
//! grows with the enemy's distance from the player, and the enemy's identity.

use std::cmp::Ordering;
use vstd::multiset::Multiset;
use vstd::prelude::*;

use crate::components::{AttackTarget, BulletSpeed, FireRate, MoveSpeed, TargetCount};

verus! {

/// An enemy as fire control ranks it: distance key first, identity second.
pub type Ranked = (u64, u64);

/// One minute in nanoseconds, times one shot per minute in thousandths.
pub const NANOS_PER_MINUTE_RATE: u128 = 60_000_000_000_000;

/// The components of one bullet that a fire event asks for.
#[derive(Debug, Clone, Copy, PartialEq, Eq, Structural)]
pub struct BulletSpawn {
    pub speed: MoveSpeed,
    pub target: AttackTarget,
}

/// The predicate "has the distance key `key`".
pub open spec fn at_distance(key: u64) -> spec_fn(Ranked) -> bool {
    |enemy: Ranked| enemy.0 == key
}

/// The enemies of `enemies` whose distance key is `key`, in their order.
pub open spec fn same_distance(enemies: Seq<Ranked>, key: u64) -> Seq<Ranked> {
    enemies.filter(at_distance(key))
}

/// Whether the distance keys never fall along `enemies`.
pub open spec fn ascending(enemies: Seq<Ranked>) -> bool {
    forall|i: int, j: int| 0 <= i <= j < enemies.len() ==> enemies[i].0 <= enemies[j].0
}

/// The index of the nearest enemy; among equally near ones, of the first.
pub open spec fn nearest_index(enemies: Seq<Ranked>) -> int
    decreases enemies.len(),
{
    if enemies.len() <= 1 {
        0
    } else {
        let before = nearest_index(enemies.drop_last());
        if enemies.last().0 < enemies[before].0 {
            enemies.len() - 1
        } else {
            before
        }
    }
}

/// The `count` nearest enemies, nearest first, equally near ones in the order
/// in which `enemies` lists them; all of them where there are fewer.
pub open spec fn nearest_first(enemies: Seq<Ranked>, count: nat) -> Seq<Ranked>
    decreases count,
{
    if count == 0 || enemies.len() == 0 {
        Seq::empty()
    } else {
        let i = nearest_index(enemies);
        seq![enemies[i]] + nearest_first(enemies.remove(i), (count - 1) as nat)
    }
}

/// The enemies that `nearest_first` leaves unselected.
pub open spec fn left_over(enemies: Seq<Ranked>, count: nat) -> Seq<Ranked>
    decreases count,
{
    if count == 0 || enemies.len() == 0 {
        enemies
    } else {
        left_over(enemies.remove(nearest_index(enemies)), (count - 1) as nat)
    }
}

/// The bullet that is fired at `enemy` with speed `speed`.
pub open spec fn bullet_for(enemy: Ranked, speed: BulletSpeed) -> BulletSpawn {
    BulletSpawn { speed: MoveSpeed(speed.0), target: AttackTarget(enemy.1) }
}

/// One bullet for each of `enemies`, in their order.
pub open spec fn bullets_for(enemies: Seq<Ranked>, speed: BulletSpeed) -> Seq<BulletSpawn> {
    Seq::new(enemies.len(), |i: int| bullet_for(enemies[i], speed))
}

/// What the time since the last shot, in nanoseconds, times the fire rate,
/// in thousandths of a shot per minute, has to reach for the next shot: one
/// minute in each of the two units.
pub open spec fn full_interval() -> int {
    60_000_000int * 1_000_000
}

/// Whether a shot is due at time `elapsed` when the last one was at
/// `last_fire`: the time between the two is at least 60 000 ms divided by
/// the shots per minute. No fraction is dropped: with both times in
/// nanoseconds and the rate in thousandths, that is the comparison of two
/// whole products. At a rate of zero no shot is ever due.
pub open spec fn fire_due(rate: FireRate, elapsed: int, last_fire: int) -> bool {
    rate.0 > 0 && (elapsed - last_fire) * rate.0 >= full_interval()
}

/// `nearest_index` points into the sequence, at an enemy that none is nearer
/// than and that every earlier one is farther than.
pub proof fn lemma_nearest_index(enemies: Seq<Ranked>)
    requires
        enemies.len() > 0,
    ensures
        0 <= nearest_index(enemies) < enemies.len(),
        forall|j: int|
            0 <= j < enemies.len() ==> enemies[nearest_index(enemies)].0 <= (#[trigger] enemies[j]).0,
        forall|j: int|
            0 <= j < nearest_index(enemies) ==> enemies[nearest_index(enemies)].0 < (
            #[trigger] enemies[j]).0,
    decreases enemies.len(),
{
    if enemies.len() > 1 {
        let front = enemies.drop_last();
        lemma_nearest_index(front);
        let before = nearest_index(front);
        assert(front[before] == enemies[before]);
        assert forall|j: int| 0 <= j < enemies.len() implies enemies[nearest_index(enemies)].0 <= (
        #[trigger] enemies[j]).0 by {
            if j < enemies.len() - 1 {
                assert(front[j] == enemies[j]);
            }
        }
        assert forall|j: int| 0 <= j < nearest_index(enemies) implies enemies[nearest_index(
            enemies,
        )].0 < (#[trigger] enemies[j]).0 by {
            if j < enemies.len() - 1 {
                assert(front[j] == enemies[j]);
            }
        }
    }
}

/// `nearest_first` selects `count` enemies, or all where there are fewer.
pub proof fn lemma_nearest_first_len(enemies: Seq<Ranked>, count: nat)
    ensures
        nearest_first(enemies, count).len() == if count <= enemies.len() {
            count
        } else {
            enemies.len()
        },
    decreases count,
{
    if count != 0 && enemies.len() != 0 {
        lemma_nearest_index(enemies);
        lemma_nearest_first_len(enemies.remove(nearest_index(enemies)), (count - 1) as nat);
    }
}


/// Whether `sorted` holds the enemies of `enemies` in ascending order of
/// distance key, equally near ones in the order that they had in `enemies`.
pub open spec fn stably_sorted(sorted: Seq<Ranked>, enemies: Seq<Ranked>) -> bool {
    &&& sorted.len() == enemies.len()
    &&& ascending(sorted)
    &&& forall|key: u64| #[trigger] same_distance(sorted, key) == same_distance(enemies, key)
}

proof fn lemma_same_distance_single(enemy: Ranked, key: u64)
    ensures
        same_distance(seq![enemy], key) == if enemy.0 == key {
            seq![enemy]
        } else {
            Seq::<Ranked>::empty()
        },
{
    reveal_with_fuel(Seq::filter, 2);
    let one = seq![enemy];
    assert(one.drop_last() =~= Seq::<Ranked>::empty());
    assert(one.filter(at_distance(key)) =~= if enemy.0 == key {
        seq![enemy]
    } else {
        Seq::<Ranked>::empty()
    });
}

proof fn lemma_same_distance_none(enemies: Seq<Ranked>, key: u64)
    requires
        forall|j: int| 0 <= j < enemies.len() ==> (#[trigger] enemies[j]).0 != key,
    ensures
        same_distance(enemies, key) == Seq::<Ranked>::empty(),
    decreases enemies.len(),
{
    reveal(Seq::filter);
    if enemies.len() > 0 {
        let front = enemies.drop_last();
        assert forall|j: int| 0 <= j < front.len() implies (#[trigger] front[j]).0 != key by {
            assert(front[j] == enemies[j]);
        }
        lemma_same_distance_none(front, key);
        assert(enemies.last() == enemies[enemies.len() - 1]);
    }
}

/// Splitting `enemies` at `i` splits the enemies at each distance likewise.
proof fn lemma_same_distance_split(enemies: Seq<Ranked>, i: int, key: u64)
    requires
        0 <= i < enemies.len(),
    ensures
        same_distance(enemies, key) == same_distance(enemies.take(i), key) + same_distance(
            seq![enemies[i]],
            key,
        ) + same_distance(enemies.skip(i + 1), key),
        same_distance(enemies.remove(i), key) == same_distance(enemies.take(i), key)
            + same_distance(enemies.skip(i + 1), key),
{
    let head = enemies.take(i);
    let one = seq![enemies[i]];
    let tail = enemies.skip(i + 1);
    assert(enemies =~= head + one + tail);
    assert(enemies.remove(i) =~= head + tail);
    Seq::filter_distributes_over_add(head + one, tail, at_distance(key));
    Seq::filter_distributes_over_add(head, one, at_distance(key));
    Seq::filter_distributes_over_add(head, tail, at_distance(key));
}

/// A stable sort puts the first of the nearest enemies in front, and what
/// follows is a stable sort of the others.
proof fn lemma_stable_sort_front(sorted: Seq<Ranked>, enemies: Seq<Ranked>)
    requires
        stably_sorted(sorted, enemies),
        enemies.len() > 0,
    ensures
        sorted[0] == enemies[nearest_index(enemies)],
        stably_sorted(sorted.skip(1), enemies.remove(nearest_index(enemies))),
{
    broadcast use vstd::seq_lib::group_filter_ensures;

    lemma_nearest_index(enemies);
    let i = nearest_index(enemies);
    let least = enemies[i].0;
    let front = sorted[0].0;
    // The key in front is the least key.
    assert(front == least) by {
        assert(at_distance(front)(sorted[0]));
        assert(same_distance(sorted, front).contains(sorted[0]));
        assert(same_distance(sorted, front) == same_distance(enemies, front));
        enemies.lemma_filter_contains_rev(at_distance(front), sorted[0]);
        let j = choose|j: int| 0 <= j < enemies.len() && enemies[j] == sorted[0];
        assert(least <= enemies[j].0);
        assert(at_distance(least)(enemies[i]));
        assert(same_distance(enemies, least).contains(enemies[i]));
        assert(same_distance(sorted, least) == same_distance(enemies, least));
        sorted.lemma_filter_contains_rev(at_distance(least), enemies[i]);
        let k = choose|k: int| 0 <= k < sorted.len() && sorted[k] == enemies[i];
        assert(sorted[0].0 <= sorted[k].0);
    }
    let rest = sorted.skip(1);
    let others = enemies.remove(i);
    assert(sorted.take(0) =~= Seq::<Ranked>::empty());
    assert(sorted.remove(0) =~= rest);
    assert forall|j: int| 0 <= j < enemies.take(i).len() implies (#[trigger] enemies.take(
        i,
    )[j]).0 != least by {
        assert(enemies.take(i)[j] == enemies[j]);
    }
    lemma_same_distance_none(enemies.take(i), least);
    assert forall|key: u64| #[trigger]
        same_distance(rest, key) == same_distance(others, key) && (key == least ==> sorted[0]
            == enemies[i]) by {
        lemma_same_distance_split(sorted, 0, key);
        lemma_same_distance_split(enemies, i, key);
        lemma_same_distance_single(sorted[0], key);
        lemma_same_distance_single(enemies[i], key);
        lemma_same_distance_none(Seq::<Ranked>::empty(), key);
        assert(same_distance(sorted, key) == same_distance(enemies, key));
        let sorted_tail = same_distance(rest, key);
        let head = same_distance(enemies.take(i), key);
        let tail = same_distance(enemies.skip(i + 1), key);
        if key == least {
            assert(same_distance(sorted, key) =~= seq![sorted[0]] + sorted_tail);
            assert(same_distance(enemies, key) =~= seq![enemies[i]] + tail);
            assert((seq![sorted[0]] + sorted_tail)[0] == (seq![enemies[i]] + tail)[0]);
            assert(sorted_tail =~= (seq![sorted[0]] + sorted_tail).skip(1));
            assert(tail =~= (seq![enemies[i]] + tail).skip(1));
            assert(same_distance(others, key) =~= tail);
        } else {
            assert(same_distance(sorted, key) =~= sorted_tail);
            assert(same_distance(enemies, key) =~= head + tail);
        }
    }
    assert(same_distance(rest, least) == same_distance(others, least));
    assert(ascending(rest)) by {
        assert forall|a: int, b: int| 0 <= a <= b < rest.len() implies rest[a].0 <= rest[b].0 by {
            assert(rest[a] == sorted[a + 1]);
            assert(rest[b] == sorted[b + 1]);
        }
    }
    enemies.remove_ensures(i);
}

/// The first `count` enemies of a stable sort are the `count` nearest ones,
/// nearest first, equally near ones in the order of `enemies`.
pub proof fn lemma_stable_sort_prefix(sorted: Seq<Ranked>, enemies: Seq<Ranked>, count: nat)
    requires
        stably_sorted(sorted, enemies),
        count <= enemies.len(),
    ensures
        sorted.take(count as int) == nearest_first(enemies, count),
    decreases count,
{
    if count == 0 || enemies.len() == 0 {
        assert(sorted.take(count as int) =~= Seq::<Ranked>::empty());
    } else {
        lemma_stable_sort_front(sorted, enemies);
        let i = nearest_index(enemies);
        lemma_stable_sort_prefix(sorted.skip(1), enemies.remove(i), (count - 1) as nat);
        assert(sorted.take(count as int) =~= seq![sorted[0]] + sorted.skip(1).take(count - 1));
    }
}


/// The distance key of a distance that is given by the bits of its
/// single-precision floating-point number: the keys stand in the order of
/// the numbers, those of negative numbers below those of all others.
pub open spec fn key_of_bits(bits: u32) -> int {
    if bits & 0x8000_0000 == 0 {
        0x8000_0000 + bits
    } else {
        0x7FFF_FFFF - (bits & 0x7FFF_FFFF)
    }
}

/// Over the bits of numbers that are not negative, the finite ones among
/// them, the key grows strictly with the bits, and so with the distance.
pub proof fn lemma_distance_key_increasing(nearer: u32, farther: u32)
    requires
        nearer < farther,
        farther & 0x8000_0000 == 0,
    ensures
        key_of_bits(nearer) < key_of_bits(farther),
        nearer & 0x8000_0000 == 0,
{
    assert(nearer & 0x8000_0000 == 0) by (bit_vector)
        requires
            nearer < farther,
            farther & 0x8000_0000 == 0,
    ;
}

/// The key of a number with the sign bit set lies below the key of every
/// number without it.
pub proof fn lemma_distance_key_of_negative(negative: u32, other: u32)
    requires
        negative & 0x8000_0000 != 0,
        other & 0x8000_0000 == 0,
    ensures
        key_of_bits(negative) < key_of_bits(other),
{
    assert(negative & 0x7FFF_FFFF <= 0x7FFF_FFFF) by (bit_vector);
}

/// The distance key of the distance with the given bits.
pub fn distance_key(bits: u32) -> (key: u64)
    ensures
        key == key_of_bits(bits),
{
    if bits & 0x8000_0000 == 0 {
        0x8000_0000 + (bits as u64)
    } else {
        let magnitude: u32 = bits & 0x7FFF_FFFF;
        assert(magnitude <= 0x7FFF_FFFF) by (bit_vector)
            requires
                magnitude == bits & 0x7FFF_FFFF,
        ;
        0x7FFF_FFFF - (magnitude as u64)
    }
}

/// Whether a fire event takes place: some enemy is alive and a shot is due.
pub open spec fn fires(enemies: Seq<Ranked>, rate: FireRate, elapsed: int, last_fire: int) -> bool {
    enemies.len() > 0 && fire_due(rate, elapsed, last_fire)
}

/// Orders two enemies by their distance keys alone.
pub fn distance_order(left: &Ranked, right: &Ranked) -> (order: Ordering)
    ensures
        (order == Ordering::Less) == (left.0 < right.0),
        (order == Ordering::Equal) == (left.0 == right.0),
        (order == Ordering::Greater) == (left.0 > right.0),
{
    if left.0 < right.0 {
        Ordering::Less
    } else if left.0 == right.0 {
        Ordering::Equal
    } else {
        Ordering::Greater
    }
}

/// Sorts with `glidesort::sort_in_vec_by` under `distance_order`. Trusted:
/// glidesort is a stable comparison sort, so afterwards the vector holds the
/// same enemies in ascending order of distance key, and the enemies at any
/// one distance still stand in the order in which they stood before.
#[verifier::external_body]
fn sort_by_distance(enemies: &mut Vec<Ranked>)
    ensures
        stably_sorted(final(enemies)@, old(enemies)@),
{
    glidesort::sort_in_vec_by(enemies, |left, right| distance_order(left, right));
}

/// Whether a shot is due at time `elapsed` when the last one was fired at
/// `last_fire`.
pub fn is_fire_due(fire_rate: &FireRate, elapsed: u128, last_fire: u128) -> (due: bool)
    requires
        last_fire <= elapsed,
    ensures
        due == fire_due(*fire_rate, elapsed as int, last_fire as int),
{
    let waited: u128 = elapsed - last_fire;
    let rate: u128 = fire_rate.0 as u128;
    if rate == 0 {
        false
    } else if waited >= NANOS_PER_MINUTE_RATE {
        assert(waited * rate >= 60_000_000_000_000) by (nonlinear_arith)
            requires
                waited >= 60_000_000_000_000,
                rate >= 1,
        ;
        true
    } else {
        assert(waited * rate <= 60_000_000_000_000 * 0xFFFF_FFFF_FFFF_FFFF) by (nonlinear_arith)
            requires
                waited <= 60_000_000_000_000,
                rate <= 0xFFFF_FFFF_FFFF_FFFF,
        ;
        waited * rate >= NANOS_PER_MINUTE_RATE
    }
}

/// The `count` nearest of `enemies`, nearest first; equally near enemies come
/// in the order in which `enemies` lists them. All of them where there are
/// fewer than `count`.
pub fn select_targets(enemies: Vec<Ranked>, count: usize) -> (targets: Vec<Ranked>)
    ensures
        targets@ == nearest_first(enemies@, count as nat),
        targets@.len() == if count <= enemies@.len() {
            count as nat
        } else {
            enemies@.len()
        },
{
    let mut sorted = enemies;
    sort_by_distance(&mut sorted);
    let wanted: usize = if count <= sorted.len() {
        count
    } else {
        sorted.len()
    };
    proof {
        lemma_stable_sort_prefix(sorted@, enemies@, wanted as nat);
        if count >= enemies@.len() {
            lemma_nearest_first_saturates(enemies@, count as nat);
        }
        lemma_nearest_first_len(enemies@, count as nat);
    }
    sorted.truncate(wanted);
    assert(sorted@ =~= nearest_first(enemies@, wanted as nat));
    sorted
}

/// One step of fire control. Nothing happens while no enemy is alive, at
/// whatever time, or while no shot is due: no bullet, and the time of the
/// last shot stays. Otherwise one bullet is asked for at each of the
/// `target_count` nearest enemies, nearest first, with the player's bullet
/// speed, and `elapsed` becomes the time of the last shot.
pub fn player_fire(
    enemies: Vec<Ranked>,
    fire_rate: &FireRate,
    target_count: &TargetCount,
    bullet_speed: &BulletSpeed,
    elapsed: u128,
    last_fire: &mut u128,
) -> (bullets: Vec<BulletSpawn>)
    requires
        enemies@.len() > 0 ==> *old(last_fire) <= elapsed,
    ensures
        fires(enemies@, *fire_rate, elapsed as int, *old(last_fire) as int) ==> {
            &&& bullets@ == bullets_for(
                nearest_first(enemies@, target_count.0 as nat),
                *bullet_speed,
            )
            &&& bullets@.len() == if target_count.0 <= enemies@.len() {
                target_count.0 as nat
            } else {
                enemies@.len()
            }
            &&& *final(last_fire) == elapsed
        },
        !fires(enemies@, *fire_rate, elapsed as int, *old(last_fire) as int) ==> {
            &&& bullets@.len() == 0
            &&& *final(last_fire) == *old(last_fire)
        },
{
    let mut bullets: Vec<BulletSpawn> = Vec::new();
    if enemies.len() == 0 {
        return bullets;
    }
    if !is_fire_due(fire_rate, elapsed, *last_fire) {
        return bullets;
    }
    let targets = select_targets(enemies, target_count.0);
    let mut i: usize = 0;
    while i < targets.len()
        invariant
            i <= targets@.len(),
            bullets@.len() == i,
            forall|j: int| 0 <= j < i ==> bullets@[j] == bullet_for(targets@[j], *bullet_speed),
        decreases targets@.len() - i,
    {
        bullets.push(
            BulletSpawn { speed: MoveSpeed(bullet_speed.0), target: AttackTarget(targets[i].1) },
        );
        i += 1;
    }
    *last_fire = elapsed;
    assert(bullets@ =~= bullets_for(targets@, *bullet_speed));
    bullets
}

/// Asking for more targets than there are enemies selects them all.
pub proof fn lemma_nearest_first_saturates(enemies: Seq<Ranked>, count: nat)
    requires
        count >= enemies.len(),
    ensures
        nearest_first(enemies, count) == nearest_first(enemies, enemies.len()),
    decreases enemies.len(),
{
    if enemies.len() == 0 {
        assert(nearest_first(enemies, count) == Seq::<Ranked>::empty());
    } else {
        lemma_nearest_index(enemies);
        let i = nearest_index(enemies);
        enemies.remove_ensures(i);
        lemma_nearest_first_saturates(enemies.remove(i), (count - 1) as nat);
    }
}


/// The selection together with what it leaves is exactly the enemies; the
/// selection is in ascending order of distance; and no enemy that is left
/// over is nearer than a selected one.
pub proof fn lemma_selection_is_nearest(enemies: Seq<Ranked>, count: nat)
    ensures
        nearest_first(enemies, count).to_multiset().add(left_over(enemies, count).to_multiset())
            == enemies.to_multiset(),
        ascending(nearest_first(enemies, count)),
        forall|a: int, b: int|
            0 <= a < nearest_first(enemies, count).len() && 0 <= b < left_over(
                enemies,
                count,
            ).len() ==> (#[trigger] nearest_first(enemies, count)[a]).0 <= (#[trigger] left_over(
                enemies,
                count,
            )[b]).0,
    decreases count,
{
    broadcast use vstd::seq_lib::group_to_multiset_ensures;
    broadcast use vstd::multiset::group_multiset_axioms;

    let selected = nearest_first(enemies, count);
    let left = left_over(enemies, count);
    if count == 0 || enemies.len() == 0 {
        assert(selected.to_multiset() =~= Multiset::<Ranked>::empty());
        assert(selected.to_multiset().add(left.to_multiset()) =~= enemies.to_multiset());
    } else {
        lemma_nearest_index(enemies);
        let i = nearest_index(enemies);
        let others = enemies.remove(i);
        let later = nearest_first(others, (count - 1) as nat);
        lemma_selection_is_nearest(others, (count - 1) as nat);
        vstd::seq_lib::lemma_multiset_commutative(seq![enemies[i]], later);
        assert(seq![enemies[i]] =~= Seq::<Ranked>::empty().push(enemies[i]));
        assert(seq![enemies[i]].to_multiset() =~= Multiset::<Ranked>::empty().insert(enemies[i]));
        assert(others.to_multiset() =~= enemies.to_multiset().remove(enemies[i]));
        assert(enemies.to_multiset().count(enemies[i]) > 0);
        assert(selected == seq![enemies[i]] + later);
        assert(left == left_over(others, (count - 1) as nat));
        assert(selected.to_multiset() =~= seq![enemies[i]].to_multiset().add(later.to_multiset()));
        assert(later.to_multiset().add(left.to_multiset()) == others.to_multiset());
        assert forall|x: Ranked|
            selected.to_multiset().add(left.to_multiset()).count(x) == enemies.to_multiset().count(
                x,
            ) by {
            assert(later.to_multiset().add(left.to_multiset()).count(x) == later.to_multiset().count(
                x,
            ) + left.to_multiset().count(x));
        }
        assert(selected.to_multiset().add(left.to_multiset()) =~= enemies.to_multiset());
        // Whatever is selected later, or left over, is one of the enemies.
        assert forall|a: int| 0 <= a < later.len() implies enemies[i].0 <= (#[trigger] later[a]).0 by {
            assert(later.contains(later[a]));
            assert(later.to_multiset().count(later[a]) > 0);
            assert(others.to_multiset().count(later[a]) > 0);
            assert(enemies.to_multiset().count(later[a]) > 0);
            assert(enemies.contains(later[a]));
        }
        assert forall|b: int| 0 <= b < left.len() implies enemies[i].0 <= (#[trigger] left[b]).0 by {
            assert(left.contains(left[b]));
            assert(left.to_multiset().count(left[b]) > 0);
            assert(others.to_multiset().count(left[b]) > 0);
            assert(enemies.to_multiset().count(left[b]) > 0);
            assert(enemies.contains(left[b]));
        }
        assert forall|a: int, b: int| 0 <= a <= b < selected.len() implies selected[a].0
            <= selected[b].0 by {
            if a > 0 {
                assert(selected[a] == later[a - 1]);
            }
            if b > 0 {
                assert(selected[b] == later[b - 1]);
            }
        }
        assert forall|a: int, b: int| 0 <= a < selected.len() && 0 <= b < left.len() implies (
        #[trigger] selected[a]).0 <= (#[trigger] left[b]).0 by {
            if a > 0 {
                assert(selected[a] == later[a - 1]);
            }
        }
    }
}

} // verus!
